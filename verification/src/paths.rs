//! What the path of a transcript file tells about it, and the text of its
//! modification time.

use vstd::prelude::*;
use vstd::slice::slice_subrange;
use vstd::string::StringSliceAdditionalSpecFns;
use vstd::utf8::{decode_utf8, encode_utf8, encode_utf8_decode_utf8, valid_utf8};

verus! {

/// One component of a file path, as the path's components iterator yields it.
#[derive(Clone, Debug, PartialEq, Eq)]
pub enum PathPart {
    Prefix,
    RootDir,
    CurDir,
    ParentDir,
    /// A name, as the bytes of its platform encoding (its UTF-8 bytes when
    /// the name is valid Unicode).
    Normal(Vec<u8>),
}

/// The text that bytes stand for, when they are valid UTF-8.
pub open spec fn utf8_text(b: Seq<u8>) -> Option<Seq<char>> {
    if valid_utf8(b) {
        Some(decode_utf8(b))
    } else {
        None
    }
}

/// Whether a component is the name `subagents`.
pub open spec fn is_subagents(p: PathPart) -> bool {
    p matches PathPart::Normal(n) && n@ == encode_utf8("subagents"@)
}

/// The path without its last component, when that is a name, `.` or `..`.
pub open spec fn parent_parts(p: Seq<PathPart>) -> Option<Seq<PathPart>> {
    if p.len() > 0 && (p.last() is Normal || p.last() is CurDir || p.last() is ParentDir) {
        Some(p.drop_last())
    } else {
        None
    }
}

/// The bytes of the last component, when it is a name.
pub open spec fn file_name_part(p: Seq<PathPart>) -> Option<Seq<u8>> {
    if p.len() > 0 && p.last() is Normal {
        Some(p.last()->Normal_0@)
    } else {
        None
    }
}

/// Whether the file is a subagent transcript (some component of its path is
/// `subagents`), and then the name of the directory two levels up, which is
/// taken as the parent session's id when it is valid UTF-8.
pub open spec fn subagent_info(p: Seq<PathPart>) -> (bool, Option<Seq<char>>) {
    let is_sub = exists|i: int| 0 <= i < p.len() && is_subagents(#[trigger] p[i]);
    let parent = if is_sub {
        match parent_parts(p) {
            Some(q) => match parent_parts(q) {
                Some(g) => match file_name_part(g) {
                    Some(name) => utf8_text(name),
                    None => None,
                },
                None => None,
            },
            None => None,
        }
    } else {
        None
    };
    (is_sub, parent)
}

/// `std::str::from_utf8`: the bytes as a string slice when they are valid
/// UTF-8, and then a slice of those very bytes; `None` otherwise.
#[verifier::external_body]
fn utf8_str(b: &[u8]) -> (r: Option<&str>)
    ensures
        r is Some <==> valid_utf8(b@),
        r matches Some(s) ==> s.spec_bytes() == b@,
{
    std::str::from_utf8(b).ok()
}

/// The text of some bytes, when they are valid UTF-8.
fn text_of_bytes(b: &[u8]) -> (r: Option<String>)
    ensures
        r.deep_view() == utf8_text(b@),
{
    match utf8_str(b) {
        Some(s) => {
            proof {
                encode_utf8_decode_utf8(s@);
            }
            Some(String::from_str(s))
        },
        None => None,
    }
}

fn bytes_equal(a: &[u8], b: &[u8]) -> (r: bool)
    ensures
        r == (a@ == b@),
{
    if a.len() != b.len() {
        return false;
    }
    let mut i: usize = 0;
    while i < a.len()
        invariant
            i <= a@.len(),
            a@.len() == b@.len(),
            forall|j: int| 0 <= j < i ==> a@[j] == b@[j],
        decreases a@.len() - i,
    {
        if a[i] != b[i] {
            return false;
        }
        i += 1;
    }
    assert(a@ =~= b@);
    true
}

fn is_name(p: &PathPart, name: &str) -> (r: bool)
    ensures
        r == (p matches PathPart::Normal(n) && n@ == name.spec_bytes()),
{
    match p {
        PathPart::Normal(n) => bytes_equal(n.as_slice(), name.as_bytes()),
        _ => false,
    }
}

fn drops_last(p: &PathPart) -> (r: bool)
    ensures
        r == (*p is Normal || *p is CurDir || *p is ParentDir),
{
    match p {
        PathPart::Normal(_) | PathPart::CurDir | PathPart::ParentDir => true,
        _ => false,
    }
}

/// Whether the path's file is a subagent transcript, and the parent
/// session's id when the path shows one.
pub fn detect_subagent(path: &Vec<PathPart>) -> (r: (bool, Option<String>))
    ensures
        r.0 == subagent_info(path@).0,
        r.1.deep_view() == subagent_info(path@).1,
{
    let mut is_sub = false;
    let mut i: usize = 0;
    while i < path.len()
        invariant
            i <= path.len(),
            is_sub == exists|j: int| 0 <= j < i && is_subagents(#[trigger] path@[j]),
        decreases path.len() - i,
    {
        if is_name(&path[i], "subagents") {
            is_sub = true;
        }
        proof {
            if is_subagents(path@[i as int]) {
                assert(exists|j: int| 0 <= j < i + 1 && is_subagents(#[trigger] path@[j]));
            }
        }
        i += 1;
    }
    let mut parent_id: Option<String> = None;
    if is_sub {
        let n = path.len();
        if n >= 3 && drops_last(&path[n - 1]) && drops_last(&path[n - 2]) {
            if let PathPart::Normal(name) = &path[n - 3] {
                parent_id = text_of_bytes(name.as_slice());
            }
        }
        proof {
            let p = path@;
            if p.len() >= 1 && parent_parts(p) is Some {
                let q = p.drop_last();
                assert(parent_parts(p) == Some(q));
                if q.len() >= 1 && parent_parts(q) is Some {
                    assert(q.last() == p[p.len() - 2]);
                    let g = q.drop_last();
                    if g.len() > 0 {
                        assert(g.last() == p[p.len() - 3]);
                    }
                }
            }
        }
    }
    (is_sub, parent_id)
}

/// Index of the last `.` byte in `s`, if any.
pub open spec fn last_dot(s: Seq<u8>) -> Option<int>
    decreases s.len(),
{
    if s.len() == 0 {
        None
    } else if s.last() == 46u8 {
        Some(s.len() - 1)
    } else {
        last_dot(s.drop_last())
    }
}

/// The stem of a file name: the bytes before the last `.`, or the whole
/// name when it has no `.` or its only `.` is its first byte.
pub open spec fn file_stem_bytes(name: Seq<u8>) -> Seq<u8> {
    match last_dot(name) {
        Some(i) => if i == 0 {
            name
        } else {
            name.take(i)
        },
        None => name,
    }
}

/// The agent id in a file name whose stem is valid UTF-8 and of the form
/// `agent-<id>`: the stem without that prefix.
pub open spec fn agent_id_of(p: Seq<PathPart>) -> Option<Seq<char>> {
    match file_name_part(p) {
        Some(name) => match utf8_text(file_stem_bytes(name)) {
            Some(stem) => if stem.len() >= 6 && stem.take(6) == "agent-"@ {
                Some(stem.skip(6))
            } else {
                None
            },
            None => None,
        },
        None => None,
    }
}

proof fn lemma_last_dot(s: Seq<u8>)
    ensures
        match last_dot(s) {
            Some(i) => 0 <= i < s.len() && s[i] == 46u8 && forall|j: int| i < j < s.len() ==> s[j] != 46u8,
            None => forall|j: int| 0 <= j < s.len() ==> s[j] != 46u8,
        },
    decreases s.len(),
{
    if s.len() > 0 && s.last() != 46u8 {
        let t = s.drop_last();
        lemma_last_dot(t);
        assert forall|j: int| 0 <= j < t.len() implies t[j] == s[j] by {}
    }
}

/// The `agent-` id carried by the stem of the file's name, if any.
pub fn extract_agent_id_from_filename(path: &Vec<PathPart>) -> (r: Option<String>)
    ensures
        r.deep_view() == agent_id_of(path@),
{
    proof {
        reveal_strlit("agent-");
    }
    let n = path.len();
    if n == 0 {
        return None;
    }
    let name = match &path[n - 1] {
        PathPart::Normal(name) => name,
        _ => return None,
    };
    let len = name.len();
    let mut k: usize = len;
    while k > 0 && name[k - 1] != 46u8
        invariant
            k <= len,
            len == name@.len(),
            forall|j: int| k <= j < len ==> name@[j] != 46u8,
        decreases k,
    {
        k -= 1;
    }
    proof {
        lemma_last_dot(name@);
    }
    let stem_len: usize = if k <= 1 { len } else { k - 1 };
    assert(file_stem_bytes(name@) == name@.take(stem_len as int)) by {
        match last_dot(name@) {
            Some(i) => {
                assert(i == k - 1);
            },
            None => {},
        }
        assert(name@.take(len as int) =~= name@);
    }
    let stem_bytes = slice_subrange(name.as_slice(), 0, stem_len);
    assert(stem_bytes@ =~= file_stem_bytes(name@));
    let stem_str = match utf8_str(stem_bytes) {
        Some(s) => s,
        None => return None,
    };
    proof {
        encode_utf8_decode_utf8(stem_str@);
    }
    let ghost stem = stem_str@;
    let stem_chars = stem_str.unicode_len();
    if stem_chars < 6 {
        return None;
    }
    let head = stem_str.substring_char(0, 6);
    if !crate::json::str_equal(head, "agent-") {
        assert(stem.take(6) =~= head@);
        return None;
    }
    assert(stem.take(6) =~= head@);
    let rest = stem_str.substring_char(6, stem_chars);
    assert(stem.skip(6) =~= rest@);
    Some(String::from_str(rest))
}

/// An empty path.
pub fn _silence_unused_path() -> (r: Vec<PathPart>)
    ensures
        r@.len() == 0,
{
    Vec::new()
}

/// The text of a UTC time given as seconds and nanoseconds since the Unix
/// epoch, in the form `YYYY-MM-DDThh:mm:ss.ffffffZ`; `None` when the time is
/// out of the calendar's range.
pub uninterp spec fn utc_iso_text(secs: int, nanos: int) -> Option<Seq<char>>;

/// `chrono::DateTime::<Utc>::from_timestamp(secs, nanos)`, formatted with
/// `"%Y-%m-%dT%H:%M:%S%.6fZ"` when it is in range. Claimed of it: the result
/// is a function of the two arguments alone, named `utc_iso_text`, and there
/// is one for every time from the epoch to the end of year 9999 with fewer
/// than a billion nanoseconds (chrono returns `None` only for out-of-range
/// seconds or invalid nanoseconds); nothing is said of the calendar
/// arithmetic behind the text.
#[verifier::external_body]
fn format_utc(secs: i64, nanos: u32) -> (r: Option<String>)
    ensures
        r.deep_view() == utc_iso_text(secs as int, nanos as int),
        0 <= secs <= 253_402_300_799 && nanos < 1_000_000_000 ==> r is Some,
{
    match chrono::DateTime::from_timestamp(secs, nanos) {
        Some(dt) => Some(dt.format("%Y-%m-%dT%H:%M:%S%.6fZ").to_string()),
        None => None,
    }
}

/// The text of a file's modification time, given as seconds and nanoseconds
/// since the Unix epoch; there is one for every time from the epoch to the
/// end of year 9999.
pub fn iso_from_systime(secs: i64, nanos: u32) -> (r: Option<String>)
    ensures
        r.deep_view() == utc_iso_text(secs as int, nanos as int),
        0 <= secs <= 253_402_300_799 && nanos < 1_000_000_000 ==> r is Some,
{
    format_utc(secs, nanos)
}

} // verus!
