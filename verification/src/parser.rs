//! The `key=value` argument grammar of the command line: tokens are split on
//! spaces, each token must hold exactly one `=`, and every key must be one
//! the command declares.  Also the `host[:port]` grammar of a registrar
//! address.

use vstd::prelude::*;
use crate::text::{all_digits, bytes_eq, dec_val, find_byte, find_from, parse_port};

verus! {

/// Why a token list was rejected.
#[derive(Debug, PartialEq, Eq, Structural, Clone, Copy)]
pub enum FieldError {
    /// A token holds no `=`.
    ValueMissing,
    /// A token holds more than one `=`.
    TooManyEquals,
    /// A token names a field the command does not declare.
    UnknownField,
}

/// Tokens of a line: maximal runs of non-space bytes, scanned left to right
/// with the current token `cur` and the finished tokens `acc` in hand.
pub open spec fn scan_tokens(s: Seq<u8>, i: int, cur: Seq<u8>, acc: Seq<Seq<u8>>) -> Seq<Seq<u8>>
    decreases s.len() - i,
{
    if i < 0 || i >= s.len() {
        if cur.len() == 0 {
            acc
        } else {
            acc.push(cur)
        }
    } else if s[i] == 32 {
        if cur.len() == 0 {
            scan_tokens(s, i + 1, Seq::empty(), acc)
        } else {
            scan_tokens(s, i + 1, Seq::empty(), acc.push(cur))
        }
    } else {
        scan_tokens(s, i + 1, cur.push(s[i]), acc)
    }
}

/// The space-separated tokens of `s`, empties dropped.
pub open spec fn tokens_of(s: Seq<u8>) -> Seq<Seq<u8>> {
    scan_tokens(s, 0, Seq::empty(), Seq::empty())
}

/// The name/value split of one token: the bytes before and after its single
/// `=`; an error when it has none or more than one.
pub open spec fn field_of(t: Seq<u8>) -> Result<(Seq<u8>, Seq<u8>), FieldError> {
    match find_from(t, 61, 0) {
        Some(p) => if find_from(t, 61, p + 1) is Some {
            Err(FieldError::TooManyEquals)
        } else {
            Ok((t.take(p), t.skip(p + 1)))
        },
        None => Err(FieldError::ValueMissing),
    }
}

/// Value of the last entry named `k`, scanning the pairs right to left.
pub open spec fn lookup(es: Seq<(Seq<u8>, Seq<u8>)>, k: Seq<u8>) -> Option<Seq<u8>>
    decreases es.len(),
{
    if es.len() == 0 {
        None
    } else if es.last().0 == k {
        Some(es.last().1)
    } else {
        lookup(es.drop_last(), k)
    }
}

/// Folds the tokens from `i` on into name/value pairs on top of `acc`:
/// the first ill-formed or undeclared token decides the error; a repeated
/// name simply adds a later entry, and `lookup` takes the last.
pub open spec fn parse_tokens(
    fields: Seq<Seq<u8>>,
    ts: Seq<Seq<u8>>,
    i: int,
    acc: Seq<(Seq<u8>, Seq<u8>)>,
) -> Result<Seq<(Seq<u8>, Seq<u8>)>, FieldError>
    decreases ts.len() - i,
{
    if i < 0 || i >= ts.len() {
        Ok(acc)
    } else {
        match field_of(ts[i]) {
            Err(e) => Err(e),
            Ok((n, v)) => if !fields.contains(n) {
                Err(FieldError::UnknownField)
            } else {
                parse_tokens(fields, ts, i + 1, acc.push((n, v)))
            },
        }
    }
}

/// What `Parser::parse` returns for a line: the pairs of its tokens, or the
/// first error.
pub open spec fn spec_parse(fields: Seq<Seq<u8>>, line: Seq<u8>) -> Result<
    Seq<(Seq<u8>, Seq<u8>)>,
    FieldError,
> {
    parse_tokens(fields, tokens_of(line), 0, Seq::empty())
}

/// The name/value pairs parsed from a line, in token order; a later entry
/// shadows an earlier one of the same name.
pub struct FieldMap {
    entries: Vec<(Vec<u8>, Vec<u8>)>,
}

impl FieldMap {
    pub closed spec fn view(self) -> Seq<(Seq<u8>, Seq<u8>)> {
        Seq::new(self.entries@.len(), |i: int| (self.entries@[i].0@, self.entries@[i].1@))
    }

    pub fn new() -> (r: Self)
        ensures
            r@ == Seq::<(Seq<u8>, Seq<u8>)>::empty(),
    {
        let r = FieldMap { entries: Vec::new() };
        proof {
            assert(r@ =~= Seq::<(Seq<u8>, Seq<u8>)>::empty());
        }
        r
    }

    pub fn insert(&mut self, name: Vec<u8>, value: Vec<u8>)
        ensures
            final(self)@ == old(self)@.push((name@, value@)),
    {
        let ghost pre = self@;
        self.entries.push((name, value));
        proof {
            assert(self@ =~= pre.push((name@, value@)));
        }
    }

    /// Value of the field `name`, the last entry winning.
    pub fn get(&self, name: &[u8]) -> (r: Option<&Vec<u8>>)
        ensures
            match r {
                Some(v) => lookup(self@, name@) == Some(v@),
                None => lookup(self@, name@) is None,
            },
    {
        let mut k: usize = self.entries.len();
        proof {
            assert(self@.take(self@.len() as int) =~= self@);
        }
        while k > 0
            invariant
                k <= self@.len(),
                lookup(self@, name@) == lookup(self@.take(k as int), name@),
            decreases k,
        {
            k = k - 1;
            proof {
                assert(self@.take(k as int + 1).drop_last() =~= self@.take(k as int));
                assert(self@.take(k as int + 1).last() == self@[k as int]);
            }
            if bytes_eq(self.entries[k].0.as_slice(), name) {
                return Some(&self.entries[k].1);
            }
        }
        proof {
            assert(self@.take(0) =~= Seq::<(Seq<u8>, Seq<u8>)>::empty());
        }
        None
    }
}

/// Declares the field names a command accepts and parses its argument lines.
pub struct Parser {
    fields: Vec<Vec<u8>>,
}

impl Parser {
    /// The declared field names.
    pub closed spec fn fields_view(self) -> Seq<Seq<u8>> {
        Seq::new(self.fields@.len(), |i: int| self.fields@[i]@)
    }

    pub fn new(fields: Vec<Vec<u8>>) -> (r: Self)
        ensures
            r.fields_view() == Seq::new(fields@.len(), |i: int| fields@[i]@),
    {
        Self { fields }
    }

    /// True iff `name` is one of the declared fields.
    fn contains_field(&self, name: &[u8]) -> (r: bool)
        ensures
            r <==> self.fields_view().contains(name@),
    {
        let mut i: usize = 0;
        while i < self.fields.len()
            invariant
                i <= self.fields@.len(),
                forall|j: int| 0 <= j < i ==> self.fields_view()[j] != name@,
            decreases self.fields@.len() - i,
        {
            if bytes_eq(self.fields[i].as_slice(), name) {
                assert(self.fields_view()[i as int] == name@);
                return true;
            }
            i = i + 1;
        }
        assert forall|j: int| 0 <= j < self.fields_view().len() implies self.fields_view()[j]
            != name@ by {}
        false
    }

    /// Splits `line` into tokens and each token at its `=`; fails on the
    /// first token without exactly one `=` or with an undeclared name, as
    /// `spec_parse` lays it down.
    pub fn parse(&self, line: &[u8]) -> (r: Result<FieldMap, FieldError>)
        ensures
            match r {
                Ok(m) => spec_parse(self.fields_view(), line@) == Ok::<_, FieldError>(m@),
                Err(e) => spec_parse(self.fields_view(), line@) == Err::<Seq<(Seq<u8>, Seq<u8>)>,
                    _,
                >(e),
            },
    {
        let tokens = split_tokens(line);
        let mut map = FieldMap::new();
        let mut i: usize = 0;
        while i < tokens.len()
            invariant
                i <= tokens@.len(),
                tokens@.len() == tokens_of(line@).len(),
                forall|j: int| 0 <= j < tokens@.len() ==> #[trigger] tokens@[j]@ == tokens_of(
                    line@,
                )[j],
                parse_tokens(self.fields_view(), tokens_of(line@), 0, Seq::empty())
                    == parse_tokens(self.fields_view(), tokens_of(line@), i as int, map@),
            decreases tokens@.len() - i,
        {
            let token = &tokens[i];
            match Parser::parse_field(token.as_slice()) {
                Err(e) => {
                    return Err(e);
                },
                Ok((name, value)) => {
                    if !self.contains_field(name.as_slice()) {
                        return Err(FieldError::UnknownField);
                    }
                    map.insert(name, value);
                },
            }
            i = i + 1;
        }
        Ok(map)
    }

    /// Cuts `token` at its single `=`; the name is what stands before it, the
    /// value what stands after.
    pub fn parse_field(token: &[u8]) -> (r: Result<(Vec<u8>, Vec<u8>), FieldError>)
        ensures
            match r {
                Ok((n, v)) => field_of(token@) == Ok::<_, FieldError>((n@, v@)),
                Err(e) => field_of(token@) == Err::<(Seq<u8>, Seq<u8>), _>(e),
            },
    {
        proof {
            lemma_find_found(token@, 61, 0);
        }
        match find_byte(token, 61) {
            None => Err(FieldError::ValueMissing),
            Some(p) => {
                let mut name: Vec<u8> = Vec::new();
                let mut k: usize = 0;
                while k < p
                    invariant
                        k <= p,
                        p < token@.len(),
                        name@ == token@.subrange(0, k as int),
                    decreases p - k,
                {
                    name.push(token[k]);
                    k = k + 1;
                    proof {
                        assert(token@.subrange(0, k as int) =~= token@.subrange(0, k as int - 1).push(
                            token@[k as int - 1],
                        ));
                    }
                }
                let token_len = token.len();
                assert(p < token_len);
                let mut value: Vec<u8> = Vec::new();
                let mut k2: usize = p + 1;
                while k2 < token_len
                    invariant
                        p as int + 1 <= k2 <= token@.len(),
                        p < token@.len(),
                        token_len == token@.len(),
                        find_from(token@, 61, 0) == Some(p as int),
                        value@ == token@.subrange(p as int + 1, k2 as int),
                        forall|j: int| p + 1 <= j < k2 ==> token@[j] != 61,
                    decreases token@.len() - k2,
                {
                    let b = token[k2];
                    if b == 61 {
                        proof {
                            assert(token@[k2 as int] == 61);
                            assert(find_from(token@, 61, k2 as int) == Some(k2 as int));
                            lemma_find_step(token@, 61, p as int + 1, k2 as int);
                        }
                        return Err(FieldError::TooManyEquals);
                    }
                    value.push(b);
                    k2 = k2 + 1;
                    proof {
                        assert(token@.subrange(p as int + 1, k2 as int) =~= token@.subrange(
                            p as int + 1,
                            k2 as int - 1,
                        ).push(token@[k2 - 1]));
                    }
                }
                proof {
                    lemma_find_none(token@, 61, p as int + 1, token@.len() as int);
                    assert(token@.subrange(p as int + 1, token@.len() as int) =~= token@.skip(
                        p as int + 1,
                    ));
                    assert(name@ =~= token@.take(p as int));
                    assert(value@ =~= token@.skip(p as int + 1));
                }
                Ok((name, value))
            },
        }
    }
}

/// A successful search lands inside the string, on the byte it looked for.
pub proof fn lemma_find_found(s: Seq<u8>, b: u8, from: int)
    requires
        0 <= from,
    ensures
        match find_from(s, b, from) {
            Some(p) => from <= p < s.len() && s[p] == b,
            None => true,
        },
    decreases s.len() - from,
{
    if from < s.len() && s[from] != b {
        lemma_find_found(s, b, from + 1);
    }
}

/// If `b` stands nowhere in `[from, upto)` and `upto` is the end, the
/// search from `from` finds nothing.
proof fn lemma_find_none(s: Seq<u8>, b: u8, from: int, upto: int)
    requires
        0 <= from,
        upto == s.len(),
        forall|j: int| from <= j < upto ==> s[j] != b,
    ensures
        find_from(s, b, from) is None,
    decreases s.len() - from,
{
    if from < s.len() {
        lemma_find_none(s, b, from + 1, upto);
    }
}

/// When everything in `[from, k)` misses, searching from `from` agrees
/// with searching from `k`.
proof fn lemma_find_step(s: Seq<u8>, b: u8, from: int, k: int)
    requires
        0 <= from <= k <= s.len(),
        forall|j: int| from <= j < k ==> s[j] != b,
    ensures
        find_from(s, b, from) == find_from(s, b, k),
    decreases k - from,
{
    if from < k {
        lemma_find_step(s, b, from + 1, k);
    }
}

/// Splits a line into its space-separated tokens, empties dropped, exactly
/// as `tokens_of` lays it down.
pub fn split_tokens(line: &[u8]) -> (r: Vec<Vec<u8>>)
    ensures
        r@.len() == tokens_of(line@).len(),
        forall|j: int| 0 <= j < r@.len() ==> #[trigger] r@[j]@ == tokens_of(line@)[j],
{
    let mut acc: Vec<Vec<u8>> = Vec::new();
    let mut cur: Vec<u8> = Vec::new();
    let mut i: usize = 0;
    proof {
        assert(cur@ =~= Seq::<u8>::empty());
        assert(acc_view(acc@) =~= Seq::<Seq<u8>>::empty());
    }
    while i < line.len()
        invariant
            i <= line@.len(),
            tokens_of(line@) == scan_tokens(line@, i as int, cur@, acc_view(acc@)),
        decreases line@.len() - i,
    {
        let b = line[i];
        if b == 32 {
            proof {
                if cur@.len() == 0 {
                    assert(cur@ =~= Seq::<u8>::empty());
                }
            }
            if cur.len() > 0 {
                let ghost pre = acc_view(acc@);
                let done = cur;
                cur = Vec::new();
                acc.push(done);
                proof {
                    assert(acc_view(acc@) =~= pre.push(acc@.last()@));
                    assert(cur@ =~= Seq::<u8>::empty());
                }
            }
        } else {
            cur.push(b);
        }
        i = i + 1;
    }
    if cur.len() > 0 {
        let ghost pre = acc_view(acc@);
        acc.push(cur);
        proof {
            assert(acc_view(acc@) =~= pre.push(acc@.last()@));
        }
    }
    proof {
        assert forall|j: int| 0 <= j < acc@.len() implies #[trigger] acc@[j]@ == tokens_of(
            line@,
        )[j] by {
            assert(acc_view(acc@)[j] == acc@[j]@);
        }
    }
    acc
}

/// The byte strings of a vector of byte vectors.
pub open spec fn acc_view(vs: Seq<Vec<u8>>) -> Seq<Seq<u8>> {
    Seq::new(vs.len(), |i: int| vs[i]@)
}

/// A registrar address as the library holds it: a DNS name or IPv4 address
/// in bytes, and an optional port.
#[derive(Debug)]
pub struct HostPort {
    pub host: Vec<u8>,
    pub port: Option<u16>,
}

/// True iff `b` may stand in a host name: a letter, a digit, `-` or `.`.
pub open spec fn is_host_byte(b: u8) -> bool {
    (97 <= b <= 122) || (65 <= b <= 90) || (48 <= b <= 57) || b == 45 || b == 46
}

/// True iff `s` is a non-empty string of host bytes.
pub open spec fn is_host_seq(s: Seq<u8>) -> bool {
    s.len() > 0 && forall|i: int| 0 <= i < s.len() ==> is_host_byte(#[trigger] s[i])
}

/// True iff `s` is a port: one to five digits valuing at most 65535.
pub open spec fn is_port_seq(s: Seq<u8>) -> bool {
    s.len() > 0 && s.len() <= 5 && all_digits(s) && dec_val(s) <= 65535
}

/// The `host[:port]` reading of `s`: everything before the first `:` (or the
/// whole string) must be a host, what follows the `:` a port.
pub open spec fn spec_host_port(s: Seq<u8>) -> Option<(Seq<u8>, Option<u16>)> {
    match find_from(s, 58, 0) {
        None => if is_host_seq(s) {
            Some((s, None::<u16>))
        } else {
            None
        },
        Some(p) => {
            let h = s.take(p);
            let rest = s.skip(p + 1);
            if is_host_seq(h) && is_port_seq(rest) {
                Some((h, Some(dec_val(rest) as u16)))
            } else {
                None
            }
        },
    }
}

/// True iff every byte of `s` may stand in a host name and `s` is not empty.
fn check_host(s: &[u8]) -> (r: bool)
    ensures
        r <==> is_host_seq(s@),
{
    if s.len() == 0 {
        return false;
    }
    let mut i: usize = 0;
    while i < s.len()
        invariant
            i <= s@.len(),
            forall|j: int| 0 <= j < i ==> is_host_byte(#[trigger] s@[j]),
        decreases s@.len() - i,
    {
        let b = s[i];
        let ok = (97 <= b && b <= 122) || (65 <= b && b <= 90) || (48 <= b && b <= 57) || b == 45
            || b == 46;
        if !ok {
            assert(!is_host_byte(s@[i as int]));
            return false;
        }
        i = i + 1;
    }
    true
}

/// Reads a registrar address as `host[:port]`; `None` when the host holds a
/// byte no host name may, the port is not one to five digits, or it exceeds
/// 65535.
pub fn parse_host_port(s: &[u8]) -> (r: Option<HostPort>)
    ensures
        match r {
            Some(hp) => spec_host_port(s@) == Some((hp.host@, hp.port)),
            None => spec_host_port(s@) is None,
        },
{
    match find_byte(s, 58) {
        None => {
            if check_host(s) {
                let host = vstd::slice::slice_to_vec(s);
                Some(HostPort { host, port: None })
            } else {
                None
            }
        },
        Some(p) => {
            proof {
                lemma_find_found(s@, 58, 0);
            }
            let n = s.len();
            assert(p < n);
            let host_part = vstd::slice::slice_subrange(s, 0, p);
            let port_part = vstd::slice::slice_subrange(s, p + 1, n);
            if !check_host(host_part) {
                return None;
            }
            match parse_port(port_part) {
                None => {
                    proof {
                        assert(s@.subrange(p as int + 1, s@.len() as int) =~= s@.skip(p as int + 1));
                    }
                    None
                },
                Some(v) => {
                    proof {
                        assert(s@.subrange(p as int + 1, s@.len() as int) =~= s@.skip(p as int + 1));
                        assert(s@.subrange(0, p as int) =~= s@.take(p as int));
                    }
                    Some(HostPort { host: vstd::slice::slice_to_vec(host_part), port: Some(v) })
                },
            }
        },
    }
}

} // verus!
