//! Static file serving over the HTTP subset of the listener.
//!
//! The handler decides which file a request path names, whether that file
//! may be served, and what the response looks like. Reading the disk is
//! left to the caller: it canonicalizes the candidate that [`resolve`]
//! names, and hands the canonical paths to [`locate`].
//!
//! [`resolve`]: StaticFileHandler::resolve
//! [`locate`]: StaticFileHandler::locate

use crate::error::{Error, Result};
use crate::message::utf8_text;
use crate::text::{append_decimal, decimal, has_prefix, starts_with};
use vstd::prelude::*;
use vstd::slice::slice_subrange;
use vstd::string::StrSliceExecFns;
use vstd::string::StringExecFns;
use vstd::string::StringSliceAdditionalSpecFns;
use vstd::utf8::{decode_utf8, encode_utf8, valid_utf8};

verus! {

/// The value of a hexadecimal digit, if the byte is one.
pub open spec fn hex_value(b: u8) -> Option<int> {
    if 0x30 <= b <= 0x39 {
        Some(b - 0x30)
    } else if 0x41 <= b <= 0x46 {
        Some(b - 0x41 + 10)
    } else if 0x61 <= b <= 0x66 {
        Some(b - 0x61 + 10)
    } else {
        None
    }
}

/// Percent-decoding: every `%` that two hexadecimal digits follow stands,
/// with them, for the byte they spell; every other byte stands for itself.
pub open spec fn percent_decoded(bytes: Seq<u8>) -> Seq<u8>
    decreases bytes.len(),
{
    if bytes.len() == 0 {
        bytes
    } else if bytes[0] == 0x25 && bytes.len() >= 3 && hex_value(bytes[1]) is Some && hex_value(
        bytes[2],
    ) is Some {
        seq![(hex_value(bytes[1])->0 * 16 + hex_value(bytes[2])->0) as u8] + percent_decoded(
            bytes.skip(3),
        )
    } else {
        seq![bytes[0]] + percent_decoded(bytes.skip(1))
    }
}

/// A path without its leading slashes.
pub open spec fn trim_slashes(bytes: Seq<u8>) -> Seq<u8>
    decreases bytes.len(),
{
    if bytes.len() > 0 && bytes[0] == 0x2f {
        trim_slashes(bytes.skip(1))
    } else {
        bytes
    }
}

/// A relative path appended to a base directory. An absolute path takes
/// the place of the base; otherwise one slash separates the two.
pub open spec fn joined(base: Seq<char>, rel: Seq<char>) -> Seq<char> {
    if rel.len() > 0 && rel[0] == '/' {
        rel
    } else if base.len() == 0 || base.last() == '/' {
        base + rel
    } else {
        base + seq!['/'] + rel
    }
}

/// Whether a canonical path is the root or lies below it: it begins with
/// the root, and the root ends where a segment of the path ends.
pub open spec fn lies_under(path: Seq<u8>, root: Seq<u8>) -> bool {
    path == root || (starts_with(path, root) && root.len() < path.len() && (path[root.len() as int]
        == 0x2f || (root.len() > 0 && root.last() == 0x2f)))
}

/// The index of the byte after the last slash of a path; zero if it has no
/// slash.
pub open spec fn name_start(path: Seq<u8>) -> int
    decreases path.len(),
{
    if path.len() == 0 {
        0
    } else if path.last() == 0x2f {
        path.len() as int
    } else {
        name_start(path.drop_last())
    }
}

/// The index of the last dot of a file name, or -1 if it has none.
pub open spec fn last_dot(name: Seq<u8>) -> int
    decreases name.len(),
{
    if name.len() == 0 {
        -1
    } else if name.last() == 0x2e {
        name.len() - 1
    } else {
        last_dot(name.drop_last())
    }
}

/// The extension of a path: what follows the last dot of its last segment,
/// where that dot is not the first byte of the segment.
pub open spec fn extension(path: Seq<u8>) -> Option<Seq<u8>> {
    let name = path.skip(name_start(path));
    let dot = last_dot(name);
    if dot <= 0 {
        None
    } else {
        Some(name.skip(dot + 1))
    }
}

/// The MIME type that the table of `mime_guess` gives for a file
/// extension, `application/octet-stream` where it knows none.
pub uninterp spec fn mime_of_extension(ext: Seq<char>) -> Seq<char>;

/// The content type of a file by its path.
pub open spec fn content_type_of(path: Seq<u8>) -> Seq<char> {
    match extension(path) {
        Some(ext) => if valid_utf8(ext) {
            mime_of_extension(decode_utf8(ext))
        } else {
            "application/octet-stream"@
        },
        None => "application/octet-stream"@,
    }
}

/// The reason phrase of a status code.
pub open spec fn reason_phrase(status: u16) -> Seq<char> {
    if status == 200 {
        "OK"@
    } else if status == 404 {
        "Not Found"@
    } else if status == 500 {
        "Internal Server Error"@
    } else {
        "Unknown"@
    }
}

/// The head of a response: status line, the three header lines and the
/// empty line that ends the head.
pub open spec fn response_head(status: u16, content_type: Seq<char>, length: nat) -> Seq<char> {
    "HTTP/1.1 "@ + decimal(status as nat) + " "@ + reason_phrase(status) + "\r\n"@
        + "Content-Type: "@ + content_type + "\r\n"@ + "Content-Length: "@ + decimal(length)
        + "\r\n"@ + "Connection: close\r\n"@ + "\r\n"@
}

/// The body of the response to a request that names no servable file.
pub open spec fn not_found_body() -> Seq<char> {
    "<html><body><h1>404 Not Found</h1></body></html>"@
}

/// Percent-decodes bytes with `percent_encoding::percent_decode` and reads
/// the result as UTF-8 with `decode_utf8`. It succeeds exactly when the
/// decoded bytes are valid UTF-8; a failure is handed back as its display
/// text.
#[verifier::external_body]
fn percent_decode_utf8(input: &[u8]) -> (decoded: core::result::Result<String, String>)
    ensures
        decoded is Ok <==> valid_utf8(percent_decoded(input@)),
        decoded matches Ok(text) ==> encode_utf8(text@) == percent_decoded(input@),
{
    match percent_encoding::percent_decode(input).decode_utf8() {
        Ok(text) => Ok(text.into_owned()),
        Err(e) => Err(e.to_string()),
    }
}

/// Looks a file extension up with `mime_guess::from_ext` and renders the
/// first guess, or `application/octet-stream` if there is none.
#[verifier::external_body]
fn guess_mime(ext: &str) -> (mime: String)
    ensures
        mime@ == mime_of_extension(ext@),
{
    mime_guess::from_ext(ext).first_or_octet_stream().to_string()
}

/// Serves the files below a root directory.
#[derive(Debug)]
pub struct StaticFileHandler {
    root: String,
    index_file: String,
}

impl Clone for StaticFileHandler {
    fn clone(&self) -> (copy: Self)
        ensures
            copy.root_path() == self.root_path(),
            copy.index_name() == self.index_name(),
    {
        StaticFileHandler { root: self.root.clone(), index_file: self.index_file.clone() }
    }
}

impl StaticFileHandler {
    /// The root directory.
    pub closed spec fn root_path(&self) -> Seq<char> {
        self.root@
    }

    /// The name of the file that is served for a directory.
    pub closed spec fn index_name(&self) -> Seq<char> {
        self.index_file@
    }

    /// Creates a handler that serves the files below `root`, and
    /// `index.html` for a directory.
    pub fn new(root: &str) -> (handler: StaticFileHandler)
        ensures
            handler.root_path() == root@,
            handler.index_name() == "index.html"@,
    {
        StaticFileHandler {
            root: String::from_str(root),
            index_file: String::from_str("index.html"),
        }
    }

    /// Sets the name of the file that is served for a directory.
    pub fn with_index(self, index: &str) -> (handler: StaticFileHandler)
        ensures
            handler.root_path() == self.root_path(),
            handler.index_name() == index@,
    {
        StaticFileHandler { root: self.root, index_file: String::from_str(index) }
    }

    /// The root directory.
    pub fn root(&self) -> (root: &str)
        ensures
            root@ == self.root_path(),
    {
        self.root.as_str()
    }

    /// The name of the file that is served for a directory.
    pub fn index_file(&self) -> (index: &str)
        ensures
            index@ == self.index_name(),
    {
        self.index_file.as_str()
    }

    /// The file that a request path names: the path without its leading
    /// slashes, percent-decoded, below the root; none where the decoded
    /// path is not valid UTF-8.
    pub open spec fn resolved(&self, path: Seq<char>) -> Option<Seq<char>> {
        let decoded = percent_decoded(trim_slashes(encode_utf8(path)));
        if valid_utf8(decoded) {
            Some(joined(self.root_path(), decode_utf8(decoded)))
        } else {
            None
        }
    }

    /// Names the file that a request path asks for: the path without its
    /// leading slashes, percent-decoded, below the root. Fails with a custom
    /// error exactly when the decoded path is not valid UTF-8.
    pub fn resolve(&self, path: &str) -> (candidate: Result<String>)
        ensures
            match candidate {
                Ok(file) => self.resolved(path@) == Some(file@),
                Err(e) => self.resolved(path@) is None && e is Custom && starts_with_text(
                    e.detail(),
                    "Invalid path encoding: "@,
                ),
            },
    {
        let bytes = path.as_bytes();
        let mut start: usize = 0;
        assert(bytes@.skip(0) =~= bytes@);
        while start < bytes.len() && bytes[start] == 0x2f
            invariant
                start <= bytes@.len(),
                trim_slashes(bytes@) == trim_slashes(bytes@.skip(start as int)),
            decreases bytes@.len() - start,
        {
            assert(bytes@.skip(start as int).skip(1) =~= bytes@.skip(start + 1));
            start += 1;
        }
        let rest = slice_subrange(bytes, start, bytes.len());
        match percent_decode_utf8(rest) {
            Ok(decoded) => {
                proof {
                    vstd::utf8::encode_utf8_decode_utf8(decoded@);
                }
                Ok(join_path(self.root.as_str(), decoded.as_str()))
            },
            Err(reason) => {
                let text = String::from_str("Invalid path encoding: ").concat(reason.as_str());
                assert(text@.take("Invalid path encoding: "@.len() as int)
                    =~= "Invalid path encoding: "@);
                Err(Error::Custom(text))
            },
        }
    }

    /// Decides whether a resolved file may be served, and names the file to
    /// read. `canonical` and `root_canonical` are the canonical forms of the
    /// candidate and of the root, as far as they could be found. A candidate
    /// outside the root is refused; a directory is served by its index file.
    pub fn locate(
        &self,
        candidate: &str,
        canonical: Option<&str>,
        root_canonical: core::result::Result<&str, &str>,
        is_dir: bool,
    ) -> (target: Result<String>)
        ensures
            target is Ok <==> servable(canonical, root_canonical),
            target matches Ok(file) ==> file@ == self.target_of(candidate@, is_dir),
            target matches Err(e) ==> e is Custom && e.detail() == refusal_text(
                canonical,
                root_canonical,
            ),
    {
        let canonical = match canonical {
            Some(path) => path,
            None => {
                return Err(Error::custom("File not found"));
            },
        };
        let root_canonical = match root_canonical {
            Ok(path) => path,
            Err(reason) => {
                let text = String::from_str("Invalid root directory: ").concat(reason);
                return Err(Error::Custom(text));
            },
        };
        if !is_within(canonical.as_bytes(), root_canonical.as_bytes()) {
            return Err(Error::custom("Access denied"));
        }
        if is_dir {
            Ok(join_path(candidate, self.index_file.as_str()))
        } else {
            Ok(String::from_str(candidate))
        }
    }

    /// The file that is read for a servable candidate: the candidate, or its
    /// index file if it is a directory.
    pub open spec fn target_of(&self, candidate: Seq<char>, is_dir: bool) -> Seq<char> {
        if is_dir {
            joined(candidate, self.index_name())
        } else {
            candidate
        }
    }

    /// Serves a file: its content and content type, if the candidate may be
    /// served and the file that [`locate`](Self::locate) names was read.
    /// Nothing outside the root is ever served, whatever was read.
    pub fn serve(
        &self,
        candidate: &str,
        canonical: Option<&str>,
        root_canonical: core::result::Result<&str, &str>,
        is_dir: bool,
        read: FileRead,
    ) -> (served: Result<(Vec<u8>, String)>)
        ensures
            served is Ok <==> servable(canonical, root_canonical) && read is Content,
            served is Ok ==> lies_under(
                encode_utf8(canonical->0@),
                encode_utf8(root_canonical->Ok_0@),
            ),
            served matches Ok(file) ==> file.0@ == read->Content_0@ && file.1@ == content_type_of(
                encode_utf8(self.target_of(candidate@, is_dir)),
            ),
            served matches Err(e) ==> e is Custom && e.detail() == (if servable(
                canonical,
                root_canonical,
            ) {
                read.failure_text()
            } else {
                refusal_text(canonical, root_canonical)
            }),
    {
        let file = match self.locate(candidate, canonical, root_canonical, is_dir) {
            Ok(file) => file,
            Err(e) => {
                return Err(e);
            },
        };
        match read {
            FileRead::Content(content) => {
                let mime = StaticFileHandler::content_type(file.as_str());
                Ok((content, mime))
            },
            FileRead::Missing => Err(Error::custom("File not found")),
            FileRead::Failed(reason) => {
                let text = String::from_str("Failed to read file: ").concat(reason.as_str());
                Err(Error::Custom(text))
            },
        }
    }

    /// The content type of a file, inferred from the extension of its path;
    /// `application/octet-stream` for a path without an extension.
    pub fn content_type(path: &str) -> (mime: String)
        ensures
            mime@ == content_type_of(encode_utf8(path@)),
    {
        let bytes = path.as_bytes();
        let mut start: usize = bytes.len();
        assert(bytes@.take(bytes@.len() as int) =~= bytes@);
        while start > 0 && bytes[start - 1] != 0x2f
            invariant
                start <= bytes@.len(),
                name_start(bytes@) == name_start(bytes@.take(start as int)),
            decreases start,
        {
            assert(bytes@.take(start as int).drop_last() =~= bytes@.take(start - 1));
            start -= 1;
        }
        let name = slice_subrange(bytes, start, bytes.len());
        let mut dot: usize = name.len();
        assert(name@.take(name@.len() as int) =~= name@);
        while dot > 0 && name[dot - 1] != 0x2e
            invariant
                dot <= name@.len(),
                last_dot(name@) == last_dot(name@.take(dot as int)),
            decreases dot,
        {
            assert(name@.take(dot as int).drop_last() =~= name@.take(dot - 1));
            dot -= 1;
        }
        if dot <= 1 {
            return String::from_str("application/octet-stream");
        }
        let ext = slice_subrange(name, dot, name.len());
        match utf8_text(ext) {
            Some(text) => {
                proof {
                    vstd::utf8::encode_utf8_decode_utf8(text@);
                }
                guess_mime(text)
            },
            None => String::from_str("application/octet-stream"),
        }
    }
}

/// What reading a file gave.
#[derive(Debug)]
pub enum FileRead {
    /// The content of the file.
    Content(Vec<u8>),
    /// The file could not be opened.
    Missing,
    /// Reading failed, with the reason.
    Failed(String),
}

impl FileRead {
    /// The detail of the error that a failed read is reported with.
    pub open spec fn failure_text(self) -> Seq<char> {
        match self {
            FileRead::Content(_) => Seq::empty(),
            FileRead::Missing => "File not found"@,
            FileRead::Failed(reason) => "Failed to read file: "@ + reason@,
        }
    }
}

/// Whether a candidate may be served: both canonical paths were found, and
/// the candidate is the root or lies below it.
pub open spec fn servable(
    canonical: Option<&str>,
    root_canonical: core::result::Result<&str, &str>,
) -> bool {
    &&& canonical is Some
    &&& root_canonical is Ok
    &&& lies_under(encode_utf8(canonical->0@), encode_utf8(root_canonical->Ok_0@))
}

/// The detail of the error that a candidate is refused with.
pub open spec fn refusal_text(
    canonical: Option<&str>,
    root_canonical: core::result::Result<&str, &str>,
) -> Seq<char> {
    if canonical is None {
        "File not found"@
    } else if root_canonical is Err {
        "Invalid root directory: "@ + root_canonical->Err_0@
    } else {
        "Access denied"@
    }
}

/// Whether a text begins with a prefix.
pub open spec fn starts_with_text(text: Seq<char>, prefix: Seq<char>) -> bool {
    prefix.len() <= text.len() && text.take(prefix.len() as int) == prefix
}

/// Appends a relative path to a base directory; see [`joined`].
pub fn join_path(base: &str, rel: &str) -> (path: String)
    ensures
        path@ == joined(base@, rel@),
{
    let rel_len = rel.unicode_len();
    if rel_len > 0 && rel.get_char(0) == '/' {
        return String::from_str(rel);
    }
    let base_len = base.unicode_len();
    let mut path = String::from_str(base);
    if base_len > 0 && base.get_char(base_len - 1) != '/' {
        proof {
            reveal_strlit("/");
        }
        path.append("/");
    }
    path.append(rel);
    path
}

/// Tests whether a canonical path is the root or lies below it; see
/// [`lies_under`].
pub fn is_within(path: &[u8], root: &[u8]) -> (r: bool)
    ensures
        r == lies_under(path@, root@),
{
    if !has_prefix(path, root) {
        assert(path@ != root@) by {
            if path@ == root@ {
                assert(path@.take(root@.len() as int) =~= root@);
            }
        }
        return false;
    }
    if path.len() == root.len() {
        assert(path@.take(root@.len() as int) =~= path@);
        return true;
    }
    path[root.len()] == 0x2f || (root.len() > 0 && root[root.len() - 1] == 0x2f)
}

/// Builds an HTTP response: the status line, the content type, the content
/// length and `Connection: close`, an empty line, and the body.
pub fn http_response(status: u16, content_type: &str, body: Vec<u8>) -> (response: Vec<u8>)
    ensures
        response@ == encode_utf8(response_head(status, content_type@, body@.len())) + body@,
{
    let reason = if status == 200 {
        "OK"
    } else if status == 404 {
        "Not Found"
    } else if status == 500 {
        "Internal Server Error"
    } else {
        "Unknown"
    };
    let mut head = String::from_str("HTTP/1.1 ");
    append_decimal(&mut head, status as u64);
    head.append(" ");
    head.append(reason);
    head.append("\r\n");
    head.append("Content-Type: ");
    head.append(content_type);
    head.append("\r\n");
    head.append("Content-Length: ");
    append_decimal(&mut head, body.len() as u64);
    head.append("\r\n");
    head.append("Connection: close\r\n");
    head.append("\r\n");
    let mut response = head.as_str().as_bytes_vec();
    response.extend_from_slice(body.as_slice());
    response
}

/// The response to a request that names no servable file: status 404 with
/// a small HTML body.
pub fn not_found_response() -> (response: Vec<u8>)
    ensures
        response@ == encode_utf8(
            response_head(404, "text/html"@, encode_utf8(not_found_body()).len()),
        ) + encode_utf8(not_found_body()),
{
    let body = "<html><body><h1>404 Not Found</h1></body></html>".as_bytes_vec();
    http_response(404, "text/html", body)
}

/// The response to a file request: the file with status 200 and its
/// content type where it was served, else the 404 response.
pub fn file_response(served: Result<(Vec<u8>, String)>) -> (response: Vec<u8>)
    ensures
        match served {
            Ok((content, mime)) => response@ == encode_utf8(
                response_head(200, mime@, content@.len()),
            ) + content@,
            Err(_) => response@ == encode_utf8(
                response_head(404, "text/html"@, encode_utf8(not_found_body()).len()),
            ) + encode_utf8(not_found_body()),
        },
{
    match served {
        Ok((content, mime)) => http_response(200, mime.as_str(), content),
        Err(_) => not_found_response(),
    }
}

} // verus!
