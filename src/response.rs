use vstd::prelude::*;
use crate::error::ClientError;
use crate::flatten::{flatten_last_wins, flattened};

verus! {

/// Characters with the Unicode `White_Space` property.
pub open spec fn is_white_space(c: char) -> bool {
    let u = c as u32;
    (0x09 <= u && u <= 0x0d) || u == 0x20 || u == 0x85 || u == 0xa0 || u == 0x1680 || (0x2000 <= u
        && u <= 0x200a) || u == 0x2028 || u == 0x2029 || u == 0x202f || u == 0x205f || u == 0x3000
}

/// The text without leading and trailing white space.
pub open spec fn trimmed(s: Seq<char>) -> Seq<char>
    decreases s.len(),
{
    if s.len() > 0 && is_white_space(s[0]) {
        trimmed(s.drop_first())
    } else if s.len() > 0 && is_white_space(s.last()) {
        trimmed(s.drop_last())
    } else {
        s
    }
}

/// Whether `c` has the `White_Space` property.
fn white_space(c: char) -> (r: bool)
    ensures
        r == is_white_space(c),
{
    let u = c as u32;
    (0x09 <= u && u <= 0x0d) || u == 0x20 || u == 0x85 || u == 0xa0 || u == 0x1680 || (0x2000 <= u
        && u <= 0x200a) || u == 0x2028 || u == 0x2029 || u == 0x202f || u == 0x205f || u == 0x3000
}

/// The text without leading and trailing white space.
pub fn trim_text(s: &str) -> (r: String)
    ensures
        r@ == trimmed(s@),
{
    let n = s.unicode_len();
    let mut start: usize = 0;
    assert(s@.subrange(0, n as int) =~= s@);
    while start < n && white_space(s.get_char(start))
        invariant
            n == s@.len(),
            start <= n,
            trimmed(s@) == trimmed(s@.subrange(start as int, n as int)),
        decreases n - start,
    {
        assert(s@.subrange(start as int, n as int).drop_first() =~= s@.subrange(start + 1, n as int));
        start = start + 1;
    }
    let mut end: usize = n;
    while end > start && white_space(s.get_char(end - 1))
        invariant
            n == s@.len(),
            start <= end <= n,
            start == end || !is_white_space(s@[start as int]),
            trimmed(s@) == trimmed(s@.subrange(start as int, end as int)),
        decreases end - start,
    {
        let ghost part = s@.subrange(start as int, end as int);
        assert(part[0] == s@[start as int]);
        assert(part.last() == s@[end - 1]);
        assert(part.drop_last() =~= s@.subrange(start as int, end - 1));
        end = end - 1;
    }
    let ghost part = s@.subrange(start as int, end as int);
    if start < end {
        assert(part[0] == s@[start as int]);
        assert(part.last() == s@[end - 1]);
    } else {
        assert(part.len() == 0);
    }
    String::from_str(s.substring_char(start, end))
}

/// Equal characters up to ASCII case.
pub open spec fn ascii_ci_char_eq(c: char, d: char) -> bool {
    ||| c == d
    ||| ('A' <= c && c <= 'Z' && d as u32 == c as u32 + 32)
    ||| ('A' <= d && d <= 'Z' && c as u32 == d as u32 + 32)
}

pub open spec fn ascii_ci_eq(a: Seq<char>, b: Seq<char>) -> bool {
    a.len() == b.len() && forall|i: int| 0 <= i < a.len() ==> ascii_ci_char_eq(#[trigger] a[i], b[i])
}

/// Whether two strings are equal up to ASCII case.
pub fn eq_ignore_ascii_case(a: &str, b: &str) -> (r: bool)
    ensures
        r == ascii_ci_eq(a@, b@),
{
    let n = a.unicode_len();
    if n != b.unicode_len() {
        return false;
    }
    let mut i: usize = 0;
    while i < n
        invariant
            n == a@.len(),
            n == b@.len(),
            i <= n,
            forall|k: int| 0 <= k < i ==> ascii_ci_char_eq(#[trigger] a@[k], b@[k]),
        decreases n - i,
    {
        let c = a.get_char(i);
        let d = b.get_char(i);
        let same = c == d || ('A' <= c && c <= 'Z' && d as u32 == c as u32 + 32) || ('A' <= d && d
            <= 'Z' && c as u32 == d as u32 + 32);
        if !same {
            return false;
        }
        i = i + 1;
    }
    true
}

/// The first position at or after `from` that holds `c`, or the length.
pub open spec fn next_index(s: Seq<char>, from: int, c: char) -> int
    decreases s.len() - from,
{
    if from < 0 || from >= s.len() {
        s.len() as int
    } else if s[from] == c {
        from
    } else {
        next_index(s, from + 1, c)
    }
}

/// The value of a `key=value` parameter whose key, trimmed, is `charset`
/// in any case.
pub open spec fn param_charset(p: Seq<char>) -> Option<Seq<char>> {
    let q = next_index(p, 0, '=');
    if q < 0 || q >= p.len() {
        None
    } else if ascii_ci_eq(trimmed(p.subrange(0, q)), "charset"@) {
        Some(trimmed(p.subrange(q + 1, p.len() as int)))
    } else {
        None
    }
}

/// The charset of the first `;`-separated part, from position `from` on,
/// that names one.
pub open spec fn charset_from(s: Seq<char>, from: int) -> Option<Seq<char>>
    decreases s.len() - from,
{
    if from < 0 || from > s.len() {
        None
    } else {
        let e = next_index(s, from, ';');
        match param_charset(s.subrange(from, e)) {
            Some(v) => Some(v),
            None => if from <= e < s.len() {
                charset_from(s, e + 1)
            } else {
                None
            },
        }
    }
}

/// The charset a `Content-Type` value names, if any.
pub open spec fn content_charset(ct: Seq<char>) -> Option<Seq<char>> {
    charset_from(ct, 0)
}

proof fn lemma_next_index_bounds(s: Seq<char>, from: int, c: char)
    requires
        0 <= from <= s.len(),
    ensures
        from <= next_index(s, from, c) <= s.len(),
    decreases s.len() - from,
{
    if from < s.len() && s[from] != c {
        lemma_next_index_bounds(s, from + 1, c);
    }
}

/// The first position at or after `from` that holds `c`, or the length.
fn find_char(s: &str, n: usize, from: usize, c: char) -> (r: usize)
    requires
        n == s@.len(),
        from <= n,
    ensures
        r == next_index(s@, from as int, c),
        from <= r <= n,
{
    proof {
        lemma_next_index_bounds(s@, from as int, c);
    }
    let mut i = from;
    while i < n
        invariant
            n == s@.len(),
            from <= i <= n,
            next_index(s@, from as int, c) == next_index(s@, i as int, c),
        decreases n - i,
    {
        if s.get_char(i) == c {
            return i;
        }
        i = i + 1;
    }
    i
}

/// The charset one parameter names, if any.
fn parameter_charset(p: &str) -> (r: Option<String>)
    ensures
        r matches Some(v) ==> param_charset(p@) == Some(v@),
        r is None ==> param_charset(p@) is None,
{
    let n = p.unicode_len();
    let q = find_char(p, n, 0, '=');
    if q >= n {
        return None;
    }
    let key = trim_text(p.substring_char(0, q));
    proof {
        reveal_strlit("charset");
    }
    if eq_ignore_ascii_case(key.as_str(), "charset") {
        Some(trim_text(p.substring_char(q + 1, n)))
    } else {
        None
    }
}

/// The charset named by a `Content-Type` value: the first `;`-separated
/// part of the form `key=value` whose trimmed key is `charset` in any case
/// gives its trimmed value.
pub fn charset_of_content_type(ct: &str) -> (r: Option<String>)
    ensures
        r matches Some(v) ==> content_charset(ct@) == Some(v@),
        r is None ==> content_charset(ct@) is None,
{
    let n = ct.unicode_len();
    let mut from: usize = 0;
    while from <= n
        invariant
            n == ct@.len(),
            from <= n + 1,
            content_charset(ct@) == charset_from(ct@, from as int),
        decreases n + 1 - from,
    {
        let e = find_char(ct, n, from, ';');
        let part = ct.substring_char(from, e);
        let found = parameter_charset(part);
        if found.is_some() {
            return found;
        }
        if e >= n {
            return None;
        }
        from = e + 1;
    }
    None
}

/// The charset a response declares, `UTF-8` when it declares none.
pub fn response_charset(content_type: Option<&str>) -> (r: String)
    ensures
        r@ == match content_type {
            Some(ct) => match content_charset(ct@) {
                Some(v) => v,
                None => "UTF-8"@,
            },
            None => "UTF-8"@,
        },
{
    match content_type {
        Some(ct) => match charset_of_content_type(ct) {
            Some(v) => v,
            None => String::from_str("UTF-8"),
        },
        None => String::from_str("UTF-8"),
    }
}

/// The message of a failed file read: it names the path and the cause.
pub open spec fn read_error_text(path: Seq<char>, cause: Seq<char>) -> Seq<char> {
    "Error reading file "@ + path + ": "@ + cause
}

/// The first failed read, if any.
pub open spec fn first_failed_read(reads: Seq<Result<Vec<u8>, String>>, i: int) -> bool {
    &&& 0 <= i < reads.len()
    &&& reads[i] is Err
    &&& forall|k: int| 0 <= k < i ==> #[trigger] reads[k] is Ok
}

/// Pairs each file field with the bytes read from its path, in order. The
/// first read that failed becomes an encoding error naming that path and
/// the cause; nothing is attached then.
pub fn attach_files(files: Vec<(String, String)>, reads: Vec<Result<Vec<u8>, String>>) -> (r: Result<
    Vec<(String, Vec<u8>)>,
    ClientError,
>)
    requires
        files@.len() == reads@.len(),
    ensures
        r is Ok <==> forall|k: int| 0 <= k < reads@.len() ==> #[trigger] reads@[k] is Ok,
        r matches Ok(parts) ==> parts@.len() == files@.len() && forall|k: int|
            0 <= k < parts@.len() ==> #[trigger] parts@[k].0 == files@[k].0 && parts@[k].1
                == reads@[k]->Ok_0,
        r matches Err(e) ==> e is Encoding && exists|i: int|
            #[trigger] first_failed_read(reads@, i) && i < files@.len() && e->Encoding_0@
                == read_error_text(files@[i].1@, reads@[i]->Err_0@),
{
    let ghost all_files = files@;
    let ghost all_reads = reads@;
    let count = reads.len();
    let mut pending_files = files;
    let mut pending_reads = reads;
    let mut parts: Vec<(String, Vec<u8>)> = Vec::new();
    let mut i: usize = 0;
    while pending_reads.len() > 0
        invariant
            i + pending_reads@.len() == all_reads.len(),
            all_reads == reads@,
            all_reads.len() == count,
            all_files == files@,
            pending_files@.len() == pending_reads@.len(),
            pending_files@ == all_files.subrange(i as int, all_files.len() as int),
            pending_reads@ == all_reads.subrange(i as int, all_reads.len() as int),
            all_files.len() == all_reads.len(),
            parts@.len() == i,
            forall|k: int| 0 <= k < i ==> #[trigger] all_reads[k] is Ok,
            forall|k: int|
                0 <= k < i ==> #[trigger] parts@[k].0 == all_files[k].0 && parts@[k].1
                    == all_reads[k]->Ok_0,
        decreases pending_reads@.len(),
    {
        let (field, path) = pending_files.remove(0);
        let read = pending_reads.remove(0);
        assert(all_reads[i as int] == read);
        assert(all_files[i as int] == (field, path));
        match read {
            Ok(bytes) => {
                parts.push((field, bytes));
            },
            Err(cause) => {
                let mut message = String::from_str("Error reading file ");
                message.append(path.as_str());
                message.append(": ");
                message.append(cause.as_str());
                proof {
                    reveal_strlit("Error reading file ");
                    reveal_strlit(": ");
                    assert(first_failed_read(all_reads, i as int));
                    assert(message@ =~= read_error_text(all_files[i as int].1@, all_reads[i as int]->Err_0@));
                    assert(!(all_reads[i as int] is Ok));
                }
                return Err(ClientError::Encoding(message));
            },
        }
        i = i + 1;
    }
    Ok(parts)
}

/// A response in a stable shape, owned by the caller.
#[derive(Debug)]
pub struct Response {
    pub status_code: u16,
    /// The URL of the last hop, after any redirects followed.
    pub url: String,
    /// One value per header name, the last one given.
    pub headers: Vec<(String, String)>,
    /// One value per cookie name, the last one given.
    pub cookies: Vec<(String, String)>,
    pub encoding: String,
    pub content: Vec<u8>,
}

impl Response {
    /// Shapes what the transport returned: headers and cookies flattened
    /// with the last value of a name kept, the charset read from the
    /// `Content-Type` value (`UTF-8` when it names none), the rest copied.
    pub fn normalize(
        status_code: u16,
        url: String,
        headers: Vec<(String, String)>,
        cookies: Vec<(String, String)>,
        content_type: Option<&str>,
        content: Vec<u8>,
    ) -> (r: Response)
        ensures
            r.status_code == status_code,
            r.url == url,
            flattened(r.headers@, headers@),
            flattened(r.cookies@, cookies@),
            r.encoding@ == match content_type {
                Some(ct) => match content_charset(ct@) {
                    Some(v) => v,
                    None => "UTF-8"@,
                },
                None => "UTF-8"@,
            },
            r.content == content,
    {
        Response {
            status_code,
            url,
            headers: flatten_last_wins(headers),
            cookies: flatten_last_wins(cookies),
            encoding: response_charset(content_type),
            content,
        }
    }
}

} // verus!
