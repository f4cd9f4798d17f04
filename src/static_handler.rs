use vstd::prelude::*;

use crate::config::ServerConfig;
use crate::error::{ServerError, error_to_response, not_found_page, page_headers};
use crate::headers::header_insert;
use crate::http::{StatusCode, Version};
use crate::response::{Response, default_headers};
use crate::text::{
    append_str,
    chars_of,
    decimal,
    eq_chars,
    lower_of,
    to_lower,
    split_chars,
    split_on,
    string_of,
};

verus! {

/// The segments of a path that name something: empty ones, `.` and `..`
/// are dropped, so a path cannot climb out of the document root.
pub open spec fn kept_segments(parts: Seq<Seq<char>>) -> Seq<Seq<char>>
    decreases parts.len(),
{
    if parts.len() == 0 {
        parts
    } else {
        let p = kept_segments(parts.drop_last());
        let x = parts.last();
        if x.len() == 0 || x == "."@ || x == ".."@ {
            p
        } else {
            p.push(x)
        }
    }
}

/// The segments joined with `/`.
pub open spec fn join_segments(s: Seq<Seq<char>>) -> Seq<char>
    decreases s.len(),
{
    if s.len() == 0 {
        Seq::empty()
    } else if s.len() == 1 {
        s[0]
    } else {
        join_segments(s.drop_last()).push('/') + s.last()
    }
}

/// The relative file path a request path names; the default index when it
/// names nothing.
pub open spec fn normalized_path(p: Seq<char>, index: Seq<char>) -> Seq<char> {
    let s = kept_segments(split_on(p, '/'));
    if s.len() == 0 {
        index
    } else {
        join_segments(s)
    }
}

/// `rel` under `root`, as `Path::join` puts it.
pub open spec fn joined_path(root: Seq<char>, rel: Seq<char>) -> Seq<char> {
    if rel.len() > 0 && rel[0] == '/' {
        rel
    } else if root.len() == 0 {
        rel
    } else if root.last() == '/' {
        root + rel
    } else {
        root.push('/') + rel
    }
}

/// The index of the last `.` before `j`, or -1.
pub open spec fn last_dot_before(s: Seq<char>, j: int) -> int
    decreases j,
{
    if j <= 0 {
        -1
    } else if s[j - 1] == '.' {
        j - 1
    } else {
        last_dot_before(s, j - 1)
    }
}

/// The name a path ends in, as `Path::file_name` reads it: the last segment
/// that is neither empty nor `.`; none if that is `..` or there is none.
pub open spec fn file_name(parts: Seq<Seq<char>>) -> Option<Seq<char>>
    decreases parts.len(),
{
    if parts.len() == 0 {
        None
    } else {
        let x = parts.last();
        if x.len() == 0 || x == "."@ {
            file_name(parts.drop_last())
        } else if x == ".."@ {
            None
        } else {
            Some(x)
        }
    }
}

/// The extension of the name `p` ends in: what follows its last dot,
/// unless that dot opens the name.
pub open spec fn extension(p: Seq<char>) -> Option<Seq<char>> {
    match file_name(split_on(p, '/')) {
        Some(name) => {
            let d = last_dot_before(name, name.len() as int);
            if d > 0 {
                Some(name.subrange(d + 1, name.len() as int))
            } else {
                None
            }
        },
        None => None,
    }
}

/// The media type for a lowercased extension.
pub open spec fn media_type_for(l: Seq<char>) -> Seq<char> {
    if l == "html"@ || l == "htm"@ {
        "text/html"@
    } else if l == "css"@ {
        "text/css"@
    } else if l == "js"@ {
        "application/javascript"@
    } else if l == "jpg"@ || l == "jpeg"@ {
        "image/jpeg"@
    } else if l == "png"@ {
        "image/png"@
    } else if l == "gif"@ {
        "image/gif"@
    } else if l == "svg"@ {
        "image/svg+xml"@
    } else if l == "json"@ {
        "application/json"@
    } else if l == "txt"@ {
        "text/plain"@
    } else {
        "application/octet-stream"@
    }
}

/// The media type for a file path, by its extension lowercased as
/// `str::to_lowercase` does it.
pub open spec fn content_type_of(p: Seq<char>) -> Seq<char> {
    match extension(p) {
        Some(e) => media_type_for(lower_of(e)),
        None => "application/octet-stream"@,
    }
}

/// The media type for an extension that is already lowercased.
pub fn media_type(ext: &str) -> (r: &'static str)
    ensures
        r@ == media_type_for(ext@),
{
    let l = chars_of(ext);
    let l = l.as_slice();
    if matches_literal(l, "html") || matches_literal(l, "htm") {
        "text/html"
    } else if matches_literal(l, "css") {
        "text/css"
    } else if matches_literal(l, "js") {
        "application/javascript"
    } else if matches_literal(l, "jpg") || matches_literal(l, "jpeg") {
        "image/jpeg"
    } else if matches_literal(l, "png") {
        "image/png"
    } else if matches_literal(l, "gif") {
        "image/gif"
    } else if matches_literal(l, "svg") {
        "image/svg+xml"
    } else if matches_literal(l, "json") {
        "application/json"
    } else if matches_literal(l, "txt") {
        "text/plain"
    } else {
        "application/octet-stream"
    }
}


/// The response for a request path, given what reading its file gave: the
/// file with its media type, or a 404 page.
pub open spec fn answers(root: Seq<char>, index: Seq<char>, path: Seq<char>, content: Option<Seq<u8>>, r: Response) -> bool {
    &&& r.version == Version::HTTP1_1
    &&& match content {
        Some(b) => {
            &&& r.status == StatusCode::OK
            &&& r.headers@ == header_insert(
                header_insert(
                    default_headers(),
                    "Content-Type"@,
                    content_type_of(joined_path(root, normalized_path(path, index))),
                ),
                "Content-Length"@,
                decimal(b.len() as nat),
            )
            &&& r.body@ == b
        },
        None => {
            &&& r.status == StatusCode::NotFound
            &&& r.headers@ == page_headers(not_found_page(path))
            &&& r.body@ == vstd::utf8::encode_utf8(not_found_page(path))
        },
    }
}

pub open spec fn bytes_of(c: Option<Vec<u8>>) -> Option<Seq<u8>> {
    match c {
        Some(b) => Some(b@),
        None => None,
    }
}

/// Serves files under a document root.
pub struct StaticFileHandler {
    root_dir: String,
    default_index: String,
}

fn matches_literal(s: &[char], lit: &str) -> (r: bool)
    ensures
        r == (s@ == lit@),
{
    eq_chars(s, chars_of(lit).as_slice())
}

impl StaticFileHandler {
    pub closed spec fn root(&self) -> Seq<char> {
        self.root_dir@
    }

    pub closed spec fn index(&self) -> Seq<char> {
        self.default_index@
    }

    pub fn new(config: &ServerConfig) -> (r: StaticFileHandler)
        ensures
            r.root() == config.doc_root@,
            r.index() == config.default_index@,
    {
        StaticFileHandler { root_dir: config.doc_root.clone(), default_index: config.default_index.clone() }
    }

    /// The relative file path that a request path names.
    pub fn normalize_path(&self, path: &str) -> (r: String)
        ensures
            r@ == normalized_path(path@, self.index()),
    {
        let parts = split_chars(chars_of(path).as_slice(), '/');
        let ghost all = split_on(path@, '/');
        let mut out: Vec<char> = Vec::new();
        let mut count: usize = 0;
        let mut i: usize = 0;
        while i < parts.len()
            invariant
                i <= parts@.len() == all.len(),
                forall|m: int| 0 <= m < parts@.len() ==> #[trigger] parts@[m]@ == all[m],
                count <= i,
                count == kept_segments(all.subrange(0, i as int)).len(),
                out@ == join_segments(kept_segments(all.subrange(0, i as int))),
            decreases parts@.len() - i,
        {
            let x = parts[i].as_slice();
            let ghost p = all.subrange(0, i as int);
            assert(all.subrange(0, i + 1).drop_last() =~= p);
            if !(x.len() == 0 || matches_literal(x, ".") || matches_literal(x, "..")) {
                if count > 0 {
                    out.push('/');
                }
                let mut k: usize = 0;
                let ghost before = out@;
                while k < x.len()
                    invariant
                        k <= x@.len(),
                        out@ == before + x@.subrange(0, k as int),
                    decreases x@.len() - k,
                {
                    out.push(x[k]);
                    k = k + 1;
                    assert(out@ =~= before + x@.subrange(0, k as int));
                }
                assert(x@.subrange(0, x@.len() as int) =~= x@);
                count = count + 1;
                proof {
                    let s = kept_segments(all.subrange(0, i + 1));
                    assert(s.drop_last() =~= kept_segments(p));
                    if s.len() == 1 {
                        assert(out@ =~= join_segments(s));
                    }
                }
            }
            i = i + 1;
        }
        assert(all.subrange(0, all.len() as int) =~= all);
        if count == 0 {
            return self.default_index.clone();
        }
        string_of(out.as_slice())
    }

    /// The media type for a file path, by its extension.
    pub fn get_content_type(&self, path: &str) -> (r: String)
        ensures
            r@ == content_type_of(path@),
    {
        let parts = split_chars(chars_of(path).as_slice(), '/');
        let ghost all = split_on(path@, '/');
        let mut i: usize = parts.len();
        let mut found: Option<usize> = None;
        assert(all.subrange(0, all.len() as int) =~= all);
        while i > 0
            invariant_except_break
                found is None,
                file_name(all.subrange(0, i as int)) == file_name(all),
            invariant
                i <= parts@.len() == all.len(),
                all == split_on(path@, '/'),
                forall|m: int| 0 <= m < parts@.len() ==> #[trigger] parts@[m]@ == all[m],
            ensures
                found is None ==> i == 0 && file_name(all.subrange(0, 0)) == file_name(all),
                found matches Some(k) ==> k < parts@.len() && file_name(all) == Some(all[k as int]),
            decreases i,
        {
            let x = parts[i - 1].as_slice();
            let ghost p = all.subrange(0, i as int);
            assert(p.drop_last() =~= all.subrange(0, i - 1));
            assert(p.last() == all[i - 1]);
            assert(x@ == all[i - 1]);
            if x.len() == 0 || matches_literal(x, ".") {
                i = i - 1;
            } else if matches_literal(x, "..") {
                return String::from_str("application/octet-stream");
            } else {
                found = Some(i - 1);
                break;
            }
        }
        let k = match found {
            Some(k) => k,
            None => {
                assert(all.subrange(0, 0) =~= Seq::<Seq<char>>::empty());
                return String::from_str("application/octet-stream");
            },
        };
        let name = parts[k].as_slice();
        let mut j: usize = name.len();
        while j > 0 && name[j - 1] != '.'
            invariant
                j <= name@.len(),
                last_dot_before(name@, j as int) == last_dot_before(name@, name@.len() as int),
            decreases j,
        {
            j = j - 1;
        }
        if j <= 1 {
            return String::from_str("application/octet-stream");
        }
        let mut ext: Vec<char> = Vec::new();
        let mut m: usize = j;
        while m < name.len()
            invariant
                j <= m <= name@.len(),
                ext@ == name@.subrange(j as int, m as int),
            decreases name@.len() - m,
        {
            ext.push(name[m]);
            m = m + 1;
            assert(ext@ =~= name@.subrange(j as int, m as int));
        }
        let lowered = to_lower(string_of(ext.as_slice()).as_str());
        String::from_str(media_type(lowered.as_str()))
    }

    /// Where the file for a request path lies: the normalized path under
    /// the document root.
    pub fn file_path(&self, path: &str) -> (r: String)
        ensures
            r@ == joined_path(self.root(), normalized_path(path@, self.index())),
    {
        let rel = self.normalize_path(path);
        let rel_chars = chars_of(rel.as_str());
        let root_chars = chars_of(self.root_dir.as_str());
        if rel_chars.len() > 0 && rel_chars[0] == '/' {
            return rel;
        }
        if root_chars.len() == 0 {
            return rel;
        }
        let mut r = self.root_dir.clone();
        if root_chars[root_chars.len() - 1] != '/' {
            append_str(&mut r, "/");
            assert("/"@ =~= seq!['/']) by {
                reveal_strlit("/");
            }
        }
        append_str(&mut r, rel.as_str());
        r
    }

    /// The response for a request path, given the content of its file, if
    /// it could be read.
    pub fn respond(&self, path: &str, content: Option<Vec<u8>>) -> (r: Response)
        ensures
            answers(self.root(), self.index(), path@, bytes_of(content), r),
    {
        match content {
            Some(b) => {
                let fp = self.file_path(path);
                let t = self.get_content_type(fp.as_str());
                Response::new().with_status(StatusCode::OK).with_content_type(t.as_str()).with_body(b)
            },
            None => error_to_response(&ServerError::NotFound(String::from_str(path))),
        }
    }

    /// Serves a request path: `read_file` is given the file's path and
    /// returns its content, or nothing if it cannot be read.
    pub fn serve<F: FnOnce(String) -> Option<Vec<u8>>>(&self, path: &str, read_file: F) -> (r:
        Response)
        requires
            forall|p: String| read_file.requires((p,)),
        ensures
            exists|p: String, c: Option<Vec<u8>>|
                p@ == joined_path(self.root(), normalized_path(path@, self.index()))
                    && read_file.ensures((p,), c) && answers(
                    self.root(),
                    self.index(),
                    path@,
                    bytes_of(c),
                    r,
                ),
    {
        let fp = self.file_path(path);
        let ghost p = fp;
        let content = read_file(fp);
        let r = self.respond(path, content);
        assert(read_file.ensures((p,), content));
        r
    }
}

} // verus!
