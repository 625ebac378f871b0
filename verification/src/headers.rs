//! The header map builder: raw header lines become a case-insensitive
//! mapping.  A header name is everything before the first colon, folded to
//! lower case; the value is everything after the colon with at most one
//! leading space stripped.  A repeated name keeps the value seen last.

use vstd::prelude::*;

use crate::request::RequestError;
use crate::text::{copy_range, lower_bytes, lower_seq};

verus! {

/// One stored header: the lower-cased name and the value.
#[derive(Debug)]
pub struct HeaderEntry {
    pub name: Vec<u8>,
    pub value: Vec<u8>,
}

/// A case-insensitive header mapping, viewed as a `Map` from lower-cased
/// name bytes to value bytes.
#[derive(Debug)]
pub struct HeaderMap {
    entries: Vec<HeaderEntry>,
}

/// The mapping that a run of entries builds up, a later entry overwriting
/// an earlier one of the same name.
pub open spec fn entries_map(s: Seq<HeaderEntry>) -> Map<Seq<u8>, Seq<u8>>
    decreases s.len(),
{
    if s.len() == 0 {
        Map::empty()
    } else {
        entries_map(s.drop_last()).insert(s.last().name@, s.last().value@)
    }
}

impl View for HeaderMap {
    type V = Map<Seq<u8>, Seq<u8>>;

    closed spec fn view(&self) -> Map<Seq<u8>, Seq<u8>> {
        entries_map(self.entries@)
    }
}

/// A name absent from every entry is absent from the mapping.
proof fn lemma_entries_absent(s: Seq<HeaderEntry>, k: Seq<u8>)
    requires
        forall|j: int| 0 <= j < s.len() ==> s[j].name@ != k,
    ensures
        !entries_map(s).contains_key(k),
    decreases s.len(),
{
    if s.len() > 0 {
        assert(forall|j: int| 0 <= j < s.drop_last().len() ==> s.drop_last()[j].name@ != k);
        lemma_entries_absent(s.drop_last(), k);
    }
}

/// The mapping carries the value of the last entry of a given name.
proof fn lemma_entries_found(s: Seq<HeaderEntry>, i: int)
    requires
        0 <= i < s.len(),
        forall|j: int| i < j < s.len() ==> s[j].name@ != s[i].name@,
    ensures
        entries_map(s).contains_key(s[i].name@),
        entries_map(s)[s[i].name@] == s[i].value@,
    decreases s.len(),
{
    if i == s.len() - 1 {
    } else {
        assert(s.drop_last()[i] == s[i]);
        assert(forall|j: int|
            i < j < s.drop_last().len() ==> s.drop_last()[j].name@ != s.drop_last()[i].name@);
        lemma_entries_found(s.drop_last(), i);
    }
}

/// Whether two byte vectors hold the same bytes.
pub fn bytes_eq(a: &Vec<u8>, b: &Vec<u8>) -> (r: bool)
    ensures
        r == (a@ == b@),
{
    if a.len() != b.len() {
        return false;
    }
    let mut i: usize = 0;
    while i < a.len()
        invariant
            a@.len() == b@.len(),
            i <= a@.len(),
            forall|j: int| 0 <= j < i ==> a@[j] == b@[j],
        decreases a@.len() - i,
    {
        if a[i] != b[i] {
            return false;
        }
        i += 1;
    }
    proof {
        assert(a@ =~= b@);
    }
    true
}

impl HeaderMap {
    /// An empty mapping.
    pub fn new() -> (r: Self)
        ensures
            r@ == Map::<Seq<u8>, Seq<u8>>::empty(),
    {
        HeaderMap { entries: Vec::new() }
    }

    /// Binds `name` to `value`, overwriting any earlier binding.
    pub fn insert(&mut self, name: Vec<u8>, value: Vec<u8>)
        ensures
            final(self)@ == old(self)@.insert(name@, value@),
    {
        let ghost before = self.entries@;
        self.entries.push(HeaderEntry { name, value });
        proof {
            assert(self.entries@.drop_last() =~= before);
        }
    }

    /// The value bound to `name`, if any.
    pub fn get(&self, name: &Vec<u8>) -> (r: Option<&Vec<u8>>)
        ensures
            match r {
                Some(v) => self@.contains_key(name@) && v@ == self@[name@],
                None => !self@.contains_key(name@),
            },
    {
        let mut i: usize = self.entries.len();
        while i > 0
            invariant
                i <= self.entries@.len(),
                forall|j: int| i <= j < self.entries@.len() ==> self.entries@[j].name@ != name@,
            decreases i,
        {
            i -= 1;
            if bytes_eq(&self.entries[i].name, name) {
                proof {
                    lemma_entries_found(self.entries@, i as int);
                }
                return Some(&self.entries[i].value);
            }
        }
        proof {
            lemma_entries_absent(self.entries@, name@);
        }
        None
    }

    /// The stored entries, in insertion order; of entries sharing a name,
    /// the last one holds the value the mapping carries.
    pub fn as_entries(&self) -> (r: &Vec<HeaderEntry>)
        ensures
            forall|i: int| 0 <= i < r@.len() ==> self@.contains_key(r@[i].name@),
    {
        proof {
            assert forall|i: int| 0 <= i < self.entries@.len() implies self@.contains_key(
                self.entries@[i].name@,
            ) by {
                lemma_entries_key_present(self.entries@, i);
            }
        }
        &self.entries
    }
}

/// Every stored name is a key of the mapping.
proof fn lemma_entries_key_present(s: Seq<HeaderEntry>, i: int)
    requires
        0 <= i < s.len(),
    ensures
        entries_map(s).contains_key(s[i].name@),
    decreases s.len(),
{
    if i < s.len() - 1 && s.last().name@ != s[i].name@ {
        assert(s.drop_last()[i] == s[i]);
        lemma_entries_key_present(s.drop_last(), i);
    }
}

/// The position of the first colon in a header line, if any.
pub open spec fn first_colon(s: Seq<u8>) -> Option<int>
    decreases s.len(),
{
    if s.len() == 0 {
        None
    } else if s[0] == 58 {
        Some(0)
    } else {
        match first_colon(s.drop_first()) {
            Some(i) => Some(i + 1),
            None => None,
        }
    }
}

/// A colon at `i` with none before it is the first colon.
proof fn lemma_first_colon_at(s: Seq<u8>, i: int)
    requires
        0 <= i < s.len(),
        s[i] == 58,
        forall|j: int| 0 <= j < i ==> s[j] != 58,
    ensures
        first_colon(s) == Some(i),
    decreases i,
{
    if i > 0 {
        let t = s.drop_first();
        assert(forall|j: int| 0 <= j < i - 1 ==> t[j] != 58);
        assert(t[i - 1] == 58);
        lemma_first_colon_at(t, i - 1);
    }
}

/// A line with no colon at all has no first colon.
proof fn lemma_first_colon_none(s: Seq<u8>)
    requires
        forall|j: int| 0 <= j < s.len() ==> s[j] != 58,
    ensures
        first_colon(s) == None::<int>,
    decreases s.len(),
{
    if s.len() > 0 {
        let t = s.drop_first();
        assert(forall|j: int| 0 <= j < t.len() ==> t[j] != 58);
        lemma_first_colon_none(t);
    }
}

/// The position of the first colon in `line`, if any.
fn find_colon(line: &Vec<u8>) -> (r: Option<usize>)
    ensures
        match r {
            Some(i) => first_colon(line@) == Some(i as int) && i < line@.len() && line@[i as int]
                == 58,
            None => first_colon(line@) == None::<int>,
        },
{
    let mut i: usize = 0;
    while i < line.len()
        invariant
            i <= line@.len(),
            forall|j: int| 0 <= j < i ==> line@[j] != 58,
        decreases line@.len() - i,
    {
        if line[i] == 58 {
            proof {
                lemma_first_colon_at(line@, i as int);
            }
            return Some(i);
        }
        i += 1;
    }
    proof {
        lemma_first_colon_none(line@);
    }
    None
}

/// The lower-cased name of a header line whose first colon stands at `ci`.
pub open spec fn header_name_of(s: Seq<u8>, ci: int) -> Seq<u8> {
    lower_seq(s.subrange(0, ci))
}

/// The value of a header line whose first colon stands at `ci`: the bytes
/// after the colon, with at most one leading space stripped.
pub open spec fn header_value_of(s: Seq<u8>, ci: int) -> Seq<u8> {
    let rest = s.subrange(ci + 1, s.len() as int);
    if rest.len() > 0 && rest[0] == 32 {
        rest.drop_first()
    } else {
        rest
    }
}

/// What parsing one header line yields: the (name, value) pair, or the
/// error for a line with no colon.
pub open spec fn spec_parse_header_line(s: Seq<u8>) -> Result<(Seq<u8>, Seq<u8>), RequestError> {
    match first_colon(s) {
        Some(ci) => Ok((header_name_of(s, ci), header_value_of(s, ci))),
        None => Err(RequestError::MalformedHeaderLine),
    }
}

/// Parses one non-blank header line into its name and value.
pub fn parse_header_line(line: &Vec<u8>) -> (r: Result<(Vec<u8>, Vec<u8>), RequestError>)
    ensures
        match r {
            Ok(p) => spec_parse_header_line(line@) == Ok::<_, RequestError>((p.0@, p.1@)),
            Err(e) => spec_parse_header_line(line@) == Err::<(Seq<u8>, Seq<u8>), _>(e),
        },
{
    match find_colon(line) {
        None => Err(RequestError::MalformedHeaderLine),
        Some(ci) => {
            let n = line.len();
            assert(ci < n);
            let raw_name = copy_range(line, 0, ci);
            let name = lower_bytes(&raw_name);
            let value = if ci + 1 < n && line[ci + 1] == 32 {
                let v = copy_range(line, ci + 2, n);
                proof {
                    let rest = line@.subrange(ci + 1, line@.len() as int);
                    assert(rest[0] == line@[ci + 1]);
                    assert(v@ =~= rest.drop_first());
                }
                v
            } else {
                let v = copy_range(line, ci + 1, n);
                proof {
                    let rest = line@.subrange(ci + 1, line@.len() as int);
                    if rest.len() > 0 {
                        assert(rest[0] == line@[ci + 1]);
                    }
                }
                v
            };
            Ok((name, value))
        },
    }
}

/// A parsed header value strips at most one leading space.  Where `k`
/// spaces follow the first colon, exactly one is dropped: the value is one
/// byte shorter than the rest of the line and still begins with the other
/// `k - 1` spaces.
pub proof fn lemma_header_value_strips_one_space(s: Seq<u8>, ci: int, k: int)
    requires
        first_colon(s) == Some(ci),
        0 <= ci,
        1 <= k,
        ci + 1 + k <= s.len(),
        forall|j: int| ci + 1 <= j < ci + 1 + k ==> s[j] == 32,
    ensures
        header_value_of(s, ci).len() == s.len() - ci - 2,
        forall|j: int| 0 <= j < k - 1 ==> header_value_of(s, ci)[j] == 32,
{
    let rest = s.subrange(ci + 1, s.len() as int);
    assert(rest[0] == s[ci + 1]);
    assert forall|j: int| 0 <= j < k - 1 implies header_value_of(s, ci)[j] == 32 by {
        assert(header_value_of(s, ci)[j] == rest[j + 1]);
        assert(rest[j + 1] == s[ci + 2 + j]);
    }
}

/// A header line whose colon is followed by anything but a space keeps the
/// whole rest of the line as the value.
pub proof fn lemma_header_value_unstripped(s: Seq<u8>, ci: int)
    requires
        first_colon(s) == Some(ci),
        0 <= ci < s.len(),
        ci + 1 < s.len() ==> s[ci + 1] != 32,
    ensures
        header_value_of(s, ci) == s.subrange(ci + 1, s.len() as int),
{
    let rest = s.subrange(ci + 1, s.len() as int);
    if rest.len() > 0 {
        assert(rest[0] == s[ci + 1]);
    }
}

/// The position of the first blank line at or after `from`, if any.
pub open spec fn first_blank_from(lines: Seq<Vec<u8>>, from: int) -> Option<int>
    decreases lines.len() - from,
{
    if from < 0 || from >= lines.len() {
        None
    } else if lines[from]@.len() == 0 {
        Some(from)
    } else {
        first_blank_from(lines, from + 1)
    }
}

/// The mapping that a run of header lines builds up, or the error of the
/// first line that does not parse.
pub open spec fn spec_parse_header_lines(hlines: Seq<Vec<u8>>) -> Result<
    Map<Seq<u8>, Seq<u8>>,
    RequestError,
>
    decreases hlines.len(),
{
    if hlines.len() == 0 {
        Ok(Map::empty())
    } else {
        match spec_parse_header_lines(hlines.drop_last()) {
            Err(e) => Err(e),
            Ok(m) => match spec_parse_header_line(hlines.last()@) {
                Ok(p) => Ok(m.insert(p.0, p.1)),
                Err(e) => Err(e),
            },
        }
    }
}

/// What the lines after the request line yield: the header mapping built
/// from the lines before the first blank line; a malformed line fails, and
/// a stream with no blank line at all is a truncated request.
pub open spec fn spec_header_section(lines: Seq<Vec<u8>>) -> Result<
    Map<Seq<u8>, Seq<u8>>,
    RequestError,
> {
    match first_blank_from(lines, 1) {
        Some(b) => spec_parse_header_lines(lines.subrange(1, b)),
        None => match spec_parse_header_lines(lines.subrange(1, lines.len() as int)) {
            Ok(m) => Err(RequestError::TruncatedRequest),
            Err(e) => Err(e),
        },
    }
}

/// A run of lines that fails keeps failing the same way however it is
/// extended: the first error wins.
proof fn lemma_parse_lines_err_extend(s: Seq<Vec<u8>>, t: Seq<Vec<u8>>, e: RequestError)
    requires
        spec_parse_header_lines(s) == Err::<Map<Seq<u8>, Seq<u8>>, _>(e),
    ensures
        spec_parse_header_lines(s + t) == Err::<Map<Seq<u8>, Seq<u8>>, _>(e),
    decreases t.len(),
{
    if t.len() == 0 {
        assert(s + t =~= s);
    } else {
        assert((s + t).drop_last() =~= s + t.drop_last());
        lemma_parse_lines_err_extend(s, t.drop_last(), e);
    }
}

/// Skipping over non-blank lines does not move the first blank line.
proof fn lemma_first_blank_skip(lines: Seq<Vec<u8>>, from: int, to: int)
    requires
        0 <= from <= to <= lines.len(),
        forall|j: int| from <= j < to ==> lines[j]@.len() != 0,
    ensures
        first_blank_from(lines, from) == first_blank_from(lines, to),
    decreases to - from,
{
    if from < to {
        lemma_first_blank_skip(lines, from + 1, to);
    }
}

/// Where the first blank line stands, it is in range and blank.
proof fn lemma_first_blank_bounds(lines: Seq<Vec<u8>>, from: int)
    requires
        0 <= from,
    ensures
        match first_blank_from(lines, from) {
            Some(b) => from <= b < lines.len() && lines[b]@.len() == 0,
            None => true,
        },
    decreases lines.len() - from,
{
    if from < lines.len() && lines[from]@.len() != 0 {
        lemma_first_blank_bounds(lines, from + 1);
    }
}

/// Builds the header mapping from the lines after the request line, up to
/// the first blank line.
pub fn parse_headers(lines: &Vec<Vec<u8>>) -> (r: Result<HeaderMap, RequestError>)
    requires
        lines@.len() >= 1,
    ensures
        match r {
            Ok(m) => spec_header_section(lines@) == Ok::<_, RequestError>(m@),
            Err(e) => spec_header_section(lines@) == Err::<Map<Seq<u8>, Seq<u8>>, _>(e),
        },
{
    let mut map = HeaderMap::new();
    let mut i: usize = 1;
    while i < lines.len()
        invariant
            1 <= i <= lines@.len(),
            spec_parse_header_lines(lines@.subrange(1, i as int)) == Ok::<_, RequestError>(map@),
            forall|j: int| 1 <= j < i ==> lines@[j]@.len() != 0,
        decreases lines@.len() - i,
    {
        let line = &lines[i];
        if line.len() == 0 {
            proof {
                lemma_first_blank_skip(lines@, 1, i as int);
                assert(first_blank_from(lines@, i as int) == Some(i as int));
            }
            return Ok(map);
        }
        match parse_header_line(line) {
            Ok(p) => {
                let (name, value) = p;
                let ghost n = name@;
                let ghost v = value@;
                map.insert(name, value);
                proof {
                    assert(lines@.subrange(1, i as int + 1).drop_last() =~= lines@.subrange(
                        1,
                        i as int,
                    ));
                    assert(lines@.subrange(1, i as int + 1).last() == lines@[i as int]);
                    assert(spec_parse_header_lines(lines@.subrange(1, i as int + 1))
                        == Ok::<_, RequestError>(map@));
                }
            },
            Err(e) => {
                proof {
                    assert(lines@.subrange(1, i as int + 1).drop_last() =~= lines@.subrange(
                        1,
                        i as int,
                    ));
                    assert(lines@.subrange(1, i as int + 1).last() == lines@[i as int]);
                    assert(spec_parse_header_lines(lines@.subrange(1, i as int + 1)) == Err::<
                        Map<Seq<u8>, Seq<u8>>,
                        _,
                    >(e));
                    lemma_first_blank_skip(lines@, 1, i as int + 1);
                    lemma_first_blank_bounds(lines@, i as int + 1);
                    match first_blank_from(lines@, 1) {
                        Some(b) => {
                            assert(lines@.subrange(1, b) =~= lines@.subrange(1, i as int + 1)
                                + lines@.subrange(i as int + 1, b));
                            lemma_parse_lines_err_extend(
                                lines@.subrange(1, i as int + 1),
                                lines@.subrange(i as int + 1, b),
                                e,
                            );
                        },
                        None => {
                            assert(lines@.subrange(1, lines@.len() as int) =~= lines@.subrange(
                                1,
                                i as int + 1,
                            ) + lines@.subrange(i as int + 1, lines@.len() as int));
                            lemma_parse_lines_err_extend(
                                lines@.subrange(1, i as int + 1),
                                lines@.subrange(i as int + 1, lines@.len() as int),
                                e,
                            );
                        },
                    }
                }
                return Err(e);
            },
        }
        i += 1;
    }
    proof {
        lemma_first_blank_skip(lines@, 1, lines@.len() as int);
    }
    Err(RequestError::TruncatedRequest)
}

} // verus!
