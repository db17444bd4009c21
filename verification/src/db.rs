//! Where a SQLite database address keeps its file.

use vstd::prelude::*;
use vstd::utf8::encode_utf8;
use crate::text::{before_char, chars_of, chars_eq, chars_start_with, find_char_in, trim, trim_str};

verus! {

/// The file path of a SQLite database address, where a file has to exist before connecting:
/// the trimmed address starts with `sqlite:`; the path is what follows `sqlite://` (else
/// `sqlite:`), up to the first `?` and then the first `#`; an in-memory database and an
/// empty path have none; a path `/X:...` (a drive letter written after a slash, tested on
/// the third byte) loses its slash.
pub open spec fn sqlite_path(url: Seq<char>) -> Option<Seq<char>> {
    let t = trim(url);
    if !(t.len() >= 7 && t.take(7) == "sqlite:"@) {
        None
    } else {
        let rest = if t.len() >= 9 && t.take(9) == "sqlite://"@ {
            t.skip(9)
        } else {
            t.skip(7)
        };
        let raw = before_char(before_char(rest, '?'), '#');
        if raw == ":memory:"@ {
            None
        } else {
            let b = encode_utf8(raw);
            let path = if raw.len() > 0 && raw[0] == '/' && b.len() >= 3 && b[2] == 58u8 {
                raw.skip(1)
            } else {
                raw
            };
            if path.len() == 0 {
                None
            } else {
                Some(path)
            }
        }
    }
}

/// The path of the database file to create before connecting (see `sqlite_path`).
pub fn sqlite_file_path(database_url: &str) -> (r: Option<String>)
    ensures
        match r {
            Some(p) => sqlite_path(database_url@) == Some(p@),
            None => sqlite_path(database_url@) is None,
        },
{
    proof {
        reveal_strlit("sqlite:");
        reveal_strlit("sqlite://");
    }
    let t = trim_str(database_url);
    let v = chars_of(t);
    if !chars_start_with(v.as_slice(), 0, v.len(), "sqlite:") {
        proof {
            if v@.len() >= 7 {
                assert(v@.take(7) == v@.subrange(0, 7));
            }
        }
        return None;
    }
    assert(v@.take(7) == v@.subrange(0, 7));
    let start: usize = if chars_start_with(v.as_slice(), 0, v.len(), "sqlite://") {
        assert(v@.take(9) == v@.subrange(0, 9));
        9
    } else {
        proof {
            if v@.len() >= 9 {
                assert(v@.take(9) == v@.subrange(0, 9));
            }
        }
        7
    };
    let ghost rest = v@.skip(start as int);
    assert(rest == v@.subrange(start as int, v@.len() as int));
    let end1 = match find_char_in(v.as_slice(), start, v.len(), '?') {
        Some(i) => i,
        None => v.len(),
    };
    let ghost r1 = before_char(rest, '?');
    assert(r1 == v@.subrange(start as int, end1 as int));
    let end2 = match find_char_in(v.as_slice(), start, end1, '#') {
        Some(i) => i,
        None => end1,
    };
    let ghost raw = before_char(r1, '#');
    assert(raw == v@.subrange(start as int, end2 as int));
    if chars_eq(v.as_slice(), start, end2, ":memory:") {
        return None;
    }
    let raw_str = t.substring_char(start, end2);
    let bytes = raw_str.as_bytes();
    let from: usize = if end2 > start && v[start] == '/' && bytes.len() >= 3 && bytes[2] == 58u8 {
        start + 1
    } else {
        start
    };
    if from == end2 {
        return None;
    }
    Some(String::from_str(t.substring_char(from, end2)))
}

} // verus!
