//! What the place of a file says about the roll call it holds.
//!
//! A file is stored as `data/json/<congress>/<chamber>/<session>/<name>`,
//! six parts between slashes, and its name is `<year>_<roll call>.json`.
use crate::text::{chars_of, lowercase, parse_bounded, parse_unsigned, text_eq, text_of};
use vstd::prelude::*;
use vstd::string::*;

verus! {

/// The parts of a text between the occurrences of a separator, in order.
/// A text without the separator is one part; two separators side by side
/// have an empty part between them.
pub open spec fn split(s: Seq<char>, sep: char) -> Seq<Seq<char>>
    decreases s.len(),
{
    if s.len() == 0 {
        seq![Seq::empty()]
    } else {
        let head = split(s.drop_last(), sep);
        if s.last() == sep {
            head.push(Seq::empty())
        } else {
            head.update(head.len() - 1, head.last().push(s.last()))
        }
    }
}

/// A text has at least one part.
pub proof fn lemma_split_len(s: Seq<char>, sep: char)
    ensures
        split(s, sep).len() >= 1,
    decreases s.len(),
{
    if s.len() > 0 {
        lemma_split_len(s.drop_last(), sep);
    }
}

/// The parts of a text between the occurrences of a separator.
pub fn split_text(s: &str, sep: char) -> (parts: Vec<String>)
    ensures
        parts.deep_view() == split(s@, sep),
{
    let chars = chars_of(s);
    let mut parts: Vec<String> = Vec::new();
    let mut current = String::new();
    let mut i: usize = 0;
    assert(chars@.take(0) =~= Seq::<char>::empty());
    assert(parts.deep_view().push(current@) =~= split(chars@.take(0), sep));
    while i < chars.len()
        invariant
            i <= chars@.len(),
            parts.deep_view().push(current@) == split(chars@.take(i as int), sep),
        decreases chars@.len() - i,
    {
        let ghost done = parts.deep_view();
        let ghost piece = current@;
        let ghost seen = chars@.take(i as int);
        let ghost next = chars@.take(i + 1);
        proof {
            assert(next.drop_last() == seen);
            assert(next.last() == chars@[i as int]);
            assert(done.push(piece).last() == piece);
        }
        if chars[i] == sep {
            parts.push(current);
            current = String::new();
            proof {
                assert(parts.deep_view() =~= done.push(piece));
            }
        } else {
            current.push(chars[i]);
            proof {
                assert(done.push(current@) =~= done.push(piece).update(
                    done.len() as int,
                    piece.push(chars@[i as int]),
                ));
            }
        }
        i += 1;
    }
    assert(chars@.take(i as int) == chars@);
    let ghost done = parts.deep_view();
    let ghost piece = current@;
    parts.push(current);
    assert(parts.deep_view() =~= done.push(piece));
    parts
}

/// Whether a text ends with another.
pub open spec fn ends_with(s: Seq<char>, suffix: Seq<char>) -> bool {
    s.len() >= suffix.len() && s.skip(s.len() - suffix.len()) == suffix
}

/// A text without every occurrence of a suffix at its end.
pub open spec fn without_suffix(s: Seq<char>, suffix: Seq<char>) -> Seq<char>
    decreases s.len(),
{
    if suffix.len() > 0 && ends_with(s, suffix) {
        without_suffix(s.take(s.len() - suffix.len()), suffix)
    } else {
        s
    }
}

/// Whether the first `len` characters of `s` end with `suffix`.
fn prefix_ends_with(s: &Vec<char>, len: usize, suffix: &Vec<char>) -> (r: bool)
    requires
        len <= s@.len(),
    ensures
        r == ends_with(s@.take(len as int), suffix@),
{
    if len < suffix.len() {
        return false;
    }
    let start = len - suffix.len();
    let ghost tail = s@.take(len as int).skip(start as int);
    let mut j: usize = 0;
    while j < suffix.len()
        invariant
            j <= suffix@.len(),
            start + suffix@.len() == len,
            len <= s@.len(),
            tail == s@.take(len as int).skip(start as int),
            forall|k: int| 0 <= k < j ==> tail[k] == suffix@[k],
        decreases suffix@.len() - j,
    {
        assert(tail[j as int] == s@[start + j]);
        if s[start + j] != suffix[j] {
            assert(tail[j as int] != suffix@[j as int]);
            return false;
        }
        j += 1;
    }
    assert(tail =~= suffix@);
    true
}

/// A copy of a text without every occurrence of a suffix at its end.
pub fn trim_suffix(s: &str, suffix: &str) -> (out: String)
    ensures
        out@ == without_suffix(s@, suffix@),
{
    let chars = chars_of(s);
    let tail = chars_of(suffix);
    let mut len: usize = chars.len();
    assert(chars@.take(len as int) == chars@);
    if tail.len() == 0 {
        return text_of(&chars, 0, len);
    }
    while prefix_ends_with(&chars, len, &tail)
        invariant
            len <= chars@.len(),
            tail@.len() > 0,
            tail@ == suffix@,
            without_suffix(s@, suffix@) == without_suffix(chars@.take(len as int), tail@),
        decreases len,
    {
        assert(chars@.take(len as int).take(len - tail@.len()) == chars@.take(len - tail@.len()));
        len -= tail.len();
    }
    text_of(&chars, 0, len)
}

/// Why the place of a file says nothing about a roll call.
#[derive(Debug, Clone, Copy, PartialEq, Eq, Structural)]
pub enum PathError {
    /// The path does not have six parts.
    UnexpectedFormat,
    /// The third part is no congress number.
    InvalidCongress,
    /// The fifth part is no session number.
    InvalidSession,
    /// The name of the file does not end in a roll call number.
    InvalidRollcall,
    /// The name of the file is not a year and a roll call number with one
    /// underscore between them.
    InvalidFileName,
    /// The year or the roll call number in the name of the file is no number.
    InvalidYearOrRollcall,
}

/// What the place of a file says where the year is not asked for.
#[derive(Debug)]
pub struct VotePath {
    pub congress_number: u16,
    pub chamber: String,
    pub session_number: u8,
    pub rollcall_number: u32,
}

/// The mathematical model of a `VotePath`.
pub struct VotePathView {
    pub congress_number: int,
    pub chamber: Seq<char>,
    pub session_number: int,
    pub rollcall_number: int,
}

impl DeepView for VotePath {
    type V = VotePathView;

    open spec fn deep_view(&self) -> VotePathView {
        VotePathView {
            congress_number: self.congress_number as int,
            chamber: self.chamber@,
            session_number: self.session_number as int,
            rollcall_number: self.rollcall_number as int,
        }
    }
}

/// The model of what a path says, or of why it says nothing.
pub open spec fn path_result<T: DeepView>(r: Result<T, PathError>) -> Result<T::V, PathError> {
    match r {
        Ok(v) => Ok(v.deep_view()),
        Err(e) => Err(e),
    }
}

/// The name of a file without `.json` at its end, in the parts between
/// its underscores.
pub open spec fn name_parts(name: Seq<char>) -> Seq<Seq<char>> {
    split(without_suffix(name, ".json"@), '_')
}

/// What a path says where the year is not asked for: the congress is the
/// third part, the chamber the fourth in lower case, the session the fifth,
/// and the roll call number what follows the last underscore of the name.
/// The faults are looked for in the order in which they stand here.
pub open spec fn vote_path(path: Seq<char>) -> Result<VotePathView, PathError> {
    let parts = split(path, '/');
    if parts.len() != 6 {
        Err(PathError::UnexpectedFormat)
    } else if parse_unsigned(parts[2], u16::MAX as nat) is None {
        Err(PathError::InvalidCongress)
    } else if parse_unsigned(parts[4], u8::MAX as nat) is None {
        Err(PathError::InvalidSession)
    } else if parse_unsigned(name_parts(parts[5]).last(), u32::MAX as nat) is None {
        Err(PathError::InvalidRollcall)
    } else {
        Ok(
            VotePathView {
                congress_number: parse_unsigned(parts[2], u16::MAX as nat)->0 as int,
                chamber: lowercase(parts[3]),
                session_number: parse_unsigned(parts[4], u8::MAX as nat)->0 as int,
                rollcall_number: parse_unsigned(
                    name_parts(parts[5]).last(),
                    u32::MAX as nat,
                )->0 as int,
            },
        )
    }
}

/// Reads what a path says where the year is not asked for.
pub fn parse_vote_path(path: &str) -> (r: Result<VotePath, PathError>)
    ensures
        path_result(r) == vote_path(path@),
{
    let parts = split_text(path, '/');
    if parts.len() != 6 {
        return Err(PathError::UnexpectedFormat);
    }
    let ghost spec_parts = split(path@, '/');
    assert(spec_parts[2] == parts@[2]@);
    assert(spec_parts[3] == parts@[3]@);
    assert(spec_parts[4] == parts@[4]@);
    assert(spec_parts[5] == parts@[5]@);
    let congress_number = match parse_bounded(parts[2].as_str(), 0xffff) {
        Some(n) => n as u16,
        None => {
            return Err(PathError::InvalidCongress);
        },
    };
    let chamber = parts[3].as_str().to_lowercase();
    let session_number = match parse_bounded(parts[4].as_str(), 0xff) {
        Some(n) => n as u8,
        None => {
            return Err(PathError::InvalidSession);
        },
    };
    let stem = trim_suffix(parts[5].as_str(), ".json");
    let pieces = split_text(stem.as_str(), '_');
    proof {
        lemma_split_len(stem@, '_');
    }
    let last = &pieces[pieces.len() - 1];
    assert(last@ == name_parts(spec_parts[5]).last());
    let rollcall_number = match parse_bounded(last.as_str(), 0xffff_ffff) {
        Some(n) => n as u32,
        None => {
            return Err(PathError::InvalidRollcall);
        },
    };
    Ok(VotePath { congress_number, chamber, session_number, rollcall_number })
}

/// What the place of a file says where the year is asked for.
#[derive(Debug)]
pub struct DatedVotePath {
    pub congress_number: u16,
    pub session_number: u8,
    pub rollcall_number: u32,
    pub chamber: String,
    pub year: u16,
}

/// The mathematical model of a `DatedVotePath`.
pub struct DatedVotePathView {
    pub congress_number: int,
    pub session_number: int,
    pub rollcall_number: int,
    pub chamber: Seq<char>,
    pub year: int,
}

impl DeepView for DatedVotePath {
    type V = DatedVotePathView;

    open spec fn deep_view(&self) -> DatedVotePathView {
        DatedVotePathView {
            congress_number: self.congress_number as int,
            session_number: self.session_number as int,
            rollcall_number: self.rollcall_number as int,
            chamber: self.chamber@,
            year: self.year as int,
        }
    }
}

/// What a path says where the year is asked for: congress, chamber and
/// session as before; the name of the file has to be a year and a roll call
/// number with one underscore between them.
pub open spec fn dated_vote_path(path: Seq<char>) -> Result<DatedVotePathView, PathError> {
    let parts = split(path, '/');
    if parts.len() != 6 {
        Err(PathError::UnexpectedFormat)
    } else if parse_unsigned(parts[2], u16::MAX as nat) is None {
        Err(PathError::InvalidCongress)
    } else if parse_unsigned(parts[4], u8::MAX as nat) is None {
        Err(PathError::InvalidSession)
    } else if name_parts(parts[5]).len() != 2 {
        Err(PathError::InvalidFileName)
    } else if parse_unsigned(name_parts(parts[5])[0], u16::MAX as nat) is None || parse_unsigned(
        name_parts(parts[5])[1],
        u32::MAX as nat,
    ) is None {
        Err(PathError::InvalidYearOrRollcall)
    } else {
        Ok(
            DatedVotePathView {
                congress_number: parse_unsigned(parts[2], u16::MAX as nat)->0 as int,
                session_number: parse_unsigned(parts[4], u8::MAX as nat)->0 as int,
                rollcall_number: parse_unsigned(name_parts(parts[5])[1], u32::MAX as nat)->0 as int,
                chamber: lowercase(parts[3]),
                year: parse_unsigned(name_parts(parts[5])[0], u16::MAX as nat)->0 as int,
            },
        )
    }
}

/// Reads what a path says where the year is asked for.
pub fn parse_dated_vote_path(path: &str) -> (r: Result<DatedVotePath, PathError>)
    ensures
        path_result(r) == dated_vote_path(path@),
{
    let parts = split_text(path, '/');
    if parts.len() != 6 {
        return Err(PathError::UnexpectedFormat);
    }
    let ghost spec_parts = split(path@, '/');
    assert(spec_parts[2] == parts@[2]@);
    assert(spec_parts[3] == parts@[3]@);
    assert(spec_parts[4] == parts@[4]@);
    assert(spec_parts[5] == parts@[5]@);
    let congress_number = match parse_bounded(parts[2].as_str(), 0xffff) {
        Some(n) => n as u16,
        None => {
            return Err(PathError::InvalidCongress);
        },
    };
    let chamber = parts[3].as_str().to_lowercase();
    let session_number = match parse_bounded(parts[4].as_str(), 0xff) {
        Some(n) => n as u8,
        None => {
            return Err(PathError::InvalidSession);
        },
    };
    let stem = trim_suffix(parts[5].as_str(), ".json");
    let pieces = split_text(stem.as_str(), '_');
    if pieces.len() != 2 {
        return Err(PathError::InvalidFileName);
    }
    assert(pieces@[0]@ == name_parts(spec_parts[5])[0]);
    assert(pieces@[1]@ == name_parts(spec_parts[5])[1]);
    let year = parse_bounded(pieces[0].as_str(), 0xffff);
    let rollcall = parse_bounded(pieces[1].as_str(), 0xffff_ffff);
    match (year, rollcall) {
        (Some(y), Some(n)) => Ok(
            DatedVotePath {
                congress_number,
                session_number,
                rollcall_number: n as u32,
                chamber,
                year: y as u16,
            },
        ),
        _ => Err(PathError::InvalidYearOrRollcall),
    }
}

/// What follows the last dot of the last part of a path: none where the
/// last part has no dot, or only one and that at its beginning.
pub open spec fn extension(path: Seq<char>) -> Option<Seq<char>> {
    let pieces = split(split(path, '/').last(), '.');
    if pieces.len() < 2 || (pieces.len() == 2 && pieces[0].len() == 0) {
        None
    } else {
        Some(pieces.last())
    }
}

/// A character with the capital letters of ASCII taken for the small ones.
pub open spec fn folded(c: char) -> int {
    if 'A' <= c && c <= 'Z' {
        c as int + 32
    } else {
        c as int
    }
}

/// Two texts are the same but for the case of their ASCII letters.
pub open spec fn same_but_for_ascii_case(a: Seq<char>, b: Seq<char>) -> bool {
    a.len() == b.len() && forall|i: int| 0 <= i < a.len() ==> folded(a[i]) == folded(b[i])
}

/// A character with the capital letters of ASCII taken for the small ones.
fn fold(c: char) -> (r: u32)
    ensures
        r == folded(c),
{
    let code = c as u32;
    if 'A' <= c && c <= 'Z' {
        code + 32
    } else {
        code
    }
}

/// Whether two texts are the same but for the case of their ASCII letters.
pub fn eq_ignoring_ascii_case(a: &str, b: &str) -> (r: bool)
    ensures
        r == same_but_for_ascii_case(a@, b@),
{
    let x = chars_of(a);
    let y = chars_of(b);
    if x.len() != y.len() {
        return false;
    }
    let mut i: usize = 0;
    while i < x.len()
        invariant
            i <= x@.len(),
            x@.len() == y@.len(),
            x@ == a@,
            y@ == b@,
            forall|j: int| 0 <= j < i ==> folded(x@[j]) == folded(y@[j]),
        decreases x@.len() - i,
    {
        if fold(x[i]) != fold(y[i]) {
            return false;
        }
        i += 1;
    }
    true
}

/// Whether a path names a JSON file: its extension is `json`, in small
/// letters, or in any case where `any_case` says so.
pub open spec fn names_json(path: Seq<char>, any_case: bool) -> bool {
    match extension(path) {
        Some(e) => if any_case {
            same_but_for_ascii_case(e, "json"@)
        } else {
            e == "json"@
        },
        None => false,
    }
}

/// Whether a path names a JSON file.
pub fn is_json_path(path: &str, any_case: bool) -> (r: bool)
    ensures
        r == names_json(path@, any_case),
{
    let parts = split_text(path, '/');
    proof {
        lemma_split_len(path@, '/');
    }
    let name = &parts[parts.len() - 1];
    assert(name@ == split(path@, '/').last());
    let pieces = split_text(name.as_str(), '.');
    proof {
        lemma_split_len(name@, '.');
    }
    if pieces.len() < 2 {
        return false;
    }
    assert(pieces@[0]@ == split(name@, '.')[0]);
    if pieces.len() == 2 && pieces[0].as_str().unicode_len() == 0 {
        return false;
    }
    let last = &pieces[pieces.len() - 1];
    assert(last@ == split(name@, '.').last());
    if any_case {
        eq_ignoring_ascii_case(last.as_str(), "json")
    } else {
        text_eq(last.as_str(), "json")
    }
}

} // verus!
