//! The token registry: the configured bearer secrets, each with an optional
//! name, and a lookup whose per-secret comparison runs in constant time.
use vstd::prelude::*;
use subtle::ConstantTimeEq;
use crate::text::opt_view;

verus! {

/// The separator between entries of a token configuration string.
pub const ENTRY_SEP: char = ',';

/// The separator between a name and its secret inside one entry.
pub const NAME_SEP: char = ':';

/// `s` cut at every occurrence of `sep`; empty pieces are kept, so the
/// result always has one piece more than `s` has separators.
pub open spec fn split(s: Seq<char>, sep: char) -> Seq<Seq<char>>
    decreases s.len(),
{
    if s.len() == 0 {
        seq![Seq::<char>::empty()]
    } else {
        let prev = split(s.drop_last(), sep);
        if s.last() == sep {
            prev.push(Seq::<char>::empty())
        } else {
            prev.update(prev.len() - 1, prev.last().push(s.last()))
        }
    }
}

/// `j` is the position of the first occurrence of `c` in `p`.
pub open spec fn first_at(p: Seq<char>, c: char, j: int) -> bool {
    &&& 0 <= j < p.len()
    &&& p[j] == c
    &&& forall|k: int| 0 <= k < j ==> p[k] != c
}

/// One configuration entry read as (name, secret): `name:secret` splits at
/// the first colon, and an entry without a colon is an anonymous secret.
pub open spec fn entry_of(p: Seq<char>) -> (Option<Seq<char>>, Seq<char>) {
    if exists|j: int| first_at(p, NAME_SEP, j) {
        let j = choose|j: int| first_at(p, NAME_SEP, j);
        (Some(p.subrange(0, j)), p.subrange(j + 1, p.len() as int))
    } else {
        (None, p)
    }
}

/// The registry a configuration string describes, or `None` where some
/// entry has an empty secret (an empty string is such a case).
pub open spec fn parse_spec(s: Seq<char>) -> Option<Seq<(Option<Seq<char>>, Seq<char>)>> {
    let pieces = split(s, ENTRY_SEP);
    if exists|i: int| 0 <= i < pieces.len() && (#[trigger] entry_of(pieces[i])).1.len() == 0 {
        None
    } else {
        Some(pieces.map_values(|p: Seq<char>| entry_of(p)))
    }
}

/// The first position whose secret is `t`, if any.
pub open spec fn first_match(
    entries: Seq<(Option<Seq<char>>, Seq<char>)>,
    t: Seq<char>,
    i: int,
) -> bool {
    &&& 0 <= i < entries.len()
    &&& entries[i].1 == t
    &&& forall|k: int| 0 <= k < i ==> entries[k].1 != t
}

/// A configured credential.
pub struct TokenEntry {
    /// The name recorded when this secret matches; `None` for an anonymous one.
    pub name: Option<String>,
    /// The secret a client presents.
    pub secret: String,
}

impl View for TokenEntry {
    type V = (Option<Seq<char>>, Seq<char>);

    open spec fn view(&self) -> (Option<Seq<char>>, Seq<char>) {
        (opt_view(self.name), self.secret@)
    }
}

/// The configured credentials, in the order of the configuration.
pub struct TokenRegistry {
    entries: Vec<TokenEntry>,
}

/// Why a token configuration was refused.
#[derive(Debug, Clone, Copy, PartialEq, Eq, Structural)]
pub enum RegistryError {
    /// Some entry has an empty secret.
    EmptySecret,
}

/// Relies on subtle's `ConstantTimeEq` for byte slices and `From<Choice>`
/// for `bool`: true exactly when the slices are equal, compared in time
/// independent of where they differ.
#[verifier::external_body]
fn ct_eq_bytes(a: &[u8], b: &[u8]) -> (r: bool)
    ensures
        r == (a@ == b@),
{
    bool::from(a.ct_eq(b))
}

/// Compares two strings through their UTF-8 bytes in constant time.
pub fn secrets_equal(a: &str, b: &str) -> (r: bool)
    ensures
        r == (a@ == b@),
{
    let ab = a.as_bytes();
    let bb = b.as_bytes();
    let r = ct_eq_bytes(ab, bb);
    proof {
        vstd::utf8::encode_utf8_decode_utf8(a@);
        vstd::utf8::encode_utf8_decode_utf8(b@);
    }
    r
}

proof fn lemma_split_step(s: Seq<char>, sep: char, i: int)
    requires
        0 <= i < s.len(),
    ensures
        split(s.subrange(0, i + 1), sep) == ({
            let prev = split(s.subrange(0, i), sep);
            if s[i] == sep {
                prev.push(Seq::<char>::empty())
            } else {
                prev.update(prev.len() - 1, prev.last().push(s[i]))
            }
        }),
{
    assert(s.subrange(0, i + 1).drop_last() =~= s.subrange(0, i));
}

proof fn lemma_split_nonempty(s: Seq<char>, sep: char)
    ensures
        split(s, sep).len() >= 1,
    decreases s.len(),
{
    if s.len() > 0 {
        lemma_split_nonempty(s.drop_last(), sep);
    }
}

/// Reads one entry: the name before the first colon, if there is one, and
/// the secret after it.
fn parse_entry(p: &str) -> (r: TokenEntry)
    ensures
        r@ == entry_of(p@),
{
    let n = p.unicode_len();
    let mut j: usize = 0;
    while j < n
        invariant
            n == p@.len(),
            j <= n,
            forall|k: int| 0 <= k < j ==> p@[k] != NAME_SEP,
        decreases n - j,
    {
        if p.get_char(j) == NAME_SEP {
            let name = p.substring_char(0, j).to_owned();
            let secret = p.substring_char(j + 1, n).to_owned();
            proof {
                assert(first_at(p@, NAME_SEP, j as int));
                let c = choose|c: int| first_at(p@, NAME_SEP, c);
                assert(c == j);
            }
            return TokenEntry { name: Some(name), secret };
        }
        j = j + 1;
    }
    assert(!exists|c: int| first_at(p@, NAME_SEP, c));
    TokenEntry { name: None, secret: p.to_owned() }
}

impl TokenRegistry {
    /// The entries as (name, secret) pairs.
    pub closed spec fn view(&self) -> Seq<(Option<Seq<char>>, Seq<char>)> {
        self.entries@.map_values(|e: TokenEntry| e@)
    }

    /// Builds the registry from a comma-separated list of `name:secret` or
    /// bare `secret` entries. Fails exactly when some entry's secret is
    /// empty, which includes an empty configuration.
    pub fn parse(config: &str) -> (r: Result<TokenRegistry, RegistryError>)
        ensures
            match parse_spec(config@) {
                Some(entries) => r is Ok && r->Ok_0.view() == entries,
                None => r == Err::<TokenRegistry, RegistryError>(RegistryError::EmptySecret),
            },
    {
        let ghost s = config@;
        let n = config.unicode_len();
        let mut pieces: Vec<TokenEntry> = Vec::new();
        let mut start: usize = 0;
        let mut i: usize = 0;
        proof {
            assert(s.subrange(0, 0) =~= Seq::<char>::empty());
        }
        while i < n
            invariant
                n == s.len(),
                s == config@,
                start <= i <= n,
                ({
                    let sp = split(s.subrange(0, i as int), ENTRY_SEP);
                    &&& sp.len() == pieces@.len() + 1
                    &&& sp.last() == s.subrange(start as int, i as int)
                    &&& forall|k: int|
                        0 <= k < pieces@.len() ==> (#[trigger] pieces@[k])@ == entry_of(sp[k])
                }),
            decreases n - i,
        {
            proof {
                lemma_split_step(s, ENTRY_SEP, i as int);
            }
            if config.get_char(i) == ENTRY_SEP {
                let piece = config.substring_char(start, i);
                let e = parse_entry(piece);
                pieces.push(e);
                start = i + 1;
                proof {
                    assert(s.subrange(start as int, i + 1) =~= Seq::<char>::empty());
                }
            } else {
                proof {
                    assert(s.subrange(start as int, i + 1) =~= s.subrange(
                        start as int,
                        i as int,
                    ).push(s[i as int]));
                }
            }
            i = i + 1;
        }
        let last = parse_entry(config.substring_char(start, n));
        pieces.push(last);
        let ghost sp = split(s, ENTRY_SEP);
        proof {
            assert(s.subrange(0, n as int) =~= s);
            assert(pieces@.len() == sp.len());
            assert forall|k: int| 0 <= k < pieces@.len() implies (#[trigger] pieces@[k])@ == entry_of(sp[k]) by {}
        }
        let mut m: usize = 0;
        while m < pieces.len()
            invariant
                pieces@.len() == sp.len(),
                sp == split(config@, ENTRY_SEP),
                m <= pieces@.len(),
                forall|k: int| 0 <= k < pieces@.len() ==> (#[trigger] pieces@[k])@ == entry_of(sp[k]),
                forall|k: int| 0 <= k < m ==> (#[trigger] entry_of(sp[k])).1.len() != 0,
            decreases pieces@.len() - m,
        {
            if pieces[m].secret.as_str().unicode_len() == 0 {
                proof {
                    assert(entry_of(sp[m as int]).1.len() == 0);
                }
                return Err(RegistryError::EmptySecret);
            }
            m = m + 1;
        }
        let reg = TokenRegistry { entries: pieces };
        proof {
            assert(reg.view() =~= sp.map_values(|p: Seq<char>| entry_of(p)));
        }
        Ok(reg)
    }

    /// The name of the credential at position `i`, `None` if it is anonymous.
    pub fn name_at(&self, i: usize) -> (r: Option<String>)
        requires
            i < self.view().len(),
        ensures
            opt_view(r) == self.view()[i as int].0,
    {
        match &self.entries[i].name {
            Some(n) => Some(n.clone()),
            None => None,
        }
    }

    /// The secret of the credential at position `i`.
    pub fn secret_at(&self, i: usize) -> (r: String)
        requires
            i < self.view().len(),
        ensures
            r@ == self.view()[i as int].1,
    {
        self.entries[i].secret.clone()
    }

    /// How many credentials are configured.
    pub fn len(&self) -> (r: usize)
        ensures
            r == self.view().len(),
    {
        self.entries.len()
    }

    /// Finds the first credential whose secret equals `token`. Every secret
    /// before it is compared in constant time.
    pub fn find(&self, token: &str) -> (r: Option<usize>)
        ensures
            match r {
                Some(i) => first_match(self.view(), token@, i as int),
                None => forall|k: int|
                    0 <= k < self.view().len() ==> (#[trigger] self.view()[k]).1 != token@,
            },
    {
        let mut i: usize = 0;
        while i < self.entries.len()
            invariant
                i <= self.entries@.len(),
                forall|k: int| 0 <= k < i ==> (#[trigger] self.view()[k]).1 != token@,
            decreases self.entries@.len() - i,
        {
            if secrets_equal(self.entries[i].secret.as_str(), token) {
                return Some(i);
            }
            i = i + 1;
        }
        None
    }
}

} // verus!
