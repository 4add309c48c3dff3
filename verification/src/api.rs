use vstd::prelude::*;
use crate::encoding::{percent_encode, url_encode};
use crate::error::ClientError;
use crate::text::{bool_str, bool_to_text};
use crate::types::{atomicity_str, limit_str, Atomicity, PagingRange};
use vstd::string::{StrSliceExecFns, StringExecFns, StringSliceAdditionalSpecFns};

verus! {

#[verifier::external_type_specification]
#[verifier::external_body]
pub struct ExClient(reqwest::Client);

/// Relies on `reqwest::Client::new` to build the shared HTTP transport
/// handle. Its documented panic concerns a failed TLS or resolver setup in
/// the environment, never an input: there is none.
#[verifier::external_body]
fn new_transport() -> reqwest::Client {
    reqwest::Client::new()
}

/// The query-string text of one optional parameter: its full `&name=` prefix
/// followed by the value when present, nothing at all when absent.
pub open spec fn opt_param(prefix: Seq<char>, value: Option<Seq<char>>) -> Seq<char> {
    match value {
        Some(v) => prefix + v,
        None => Seq::empty(),
    }
}

/// The URL of a query execution: the query text percent-encoded in full,
/// then each present optional parameter in declaration order — limit, count,
/// nm — with no trace of the absent ones.
pub open spec fn exec_url_str(
    base: Seq<char>,
    query_bytes: Seq<u8>,
    limit: Option<PagingRange>,
    count: Option<bool>,
    nm: Option<bool>,
) -> Seq<char> {
    base + "/exec?query="@ + percent_encode(query_bytes) + opt_param(
        "&limit="@,
        match limit {
            Some(l) => Some(limit_str(l)),
            None => None,
        },
    ) + opt_param(
        "&count="@,
        match count {
            Some(b) => Some(bool_str(b)),
            None => None,
        },
    ) + opt_param(
        "&nm="@,
        match nm {
            Some(b) => Some(bool_str(b)),
            None => None,
        },
    )
}

/// The URL of a bulk upload: the fixed `fmt=json` parameter, the table name
/// inserted verbatim — not percent-encoded, the observed wire contract,
/// preserved here though it is a potential defect — then each present
/// optional parameter in declaration order: overwrite, durable, atomicity.
pub open spec fn imp_url_str(
    base: Seq<char>,
    table: Seq<char>,
    overwrite: Option<bool>,
    durable: Option<bool>,
    atomicity: Option<Atomicity>,
) -> Seq<char> {
    base + "/imp?fmt=json&name="@ + table + opt_param(
        "&overwrite="@,
        match overwrite {
            Some(b) => Some(bool_str(b)),
            None => None,
        },
    ) + opt_param(
        "&durable="@,
        match durable {
            Some(b) => Some(bool_str(b)),
            None => None,
        },
    ) + opt_param(
        "&atomicity="@,
        match atomicity {
            Some(a) => Some(atomicity_str(a)),
            None => None,
        },
    )
}

/// The URL of a result export: the query text inserted verbatim — unlike the
/// execution URL it is not percent-encoded, an inconsistency in the observed
/// wire contract that is preserved as-is — then the limit when present.
pub open spec fn exp_url_str(base: Seq<char>, query: Seq<char>, limit: Option<PagingRange>) -> Seq<
    char,
> {
    base + "/exp?query="@ + query + opt_param(
        "&limit="@,
        match limit {
            Some(l) => Some(limit_str(l)),
            None => None,
        },
    )
}

/// The characters of a path after its last `/`: the whole path when it holds
/// no `/`, empty when it ends with one.
pub open spec fn suffix_after_last_slash(s: Seq<char>) -> Seq<char>
    decreases s.len(),
{
    if s.len() == 0 {
        s
    } else if s.last() == '/' {
        Seq::empty()
    } else {
        suffix_after_last_slash(s.drop_last()) + seq![s.last()]
    }
}

/// Whether the path prefix of length `end` ends in text that a file name
/// scan steps over: a `/` separator, or a `.` standing as a whole segment —
/// the current-directory marker, which path normalization drops.
pub open spec fn dot_or_slash_tail(s: Seq<char>, end: int) -> bool {
    end > 0 && (s[end - 1] == '/' || (s[end - 1] == '.' && (end == 1 || s[end - 2] == '/')))
}

/// A path without its trailing `/` separators and `.` segments, dropped
/// repeatedly from the end until a normal segment (or nothing) remains.
pub open spec fn strip_dot_and_slash_tail(s: Seq<char>) -> Seq<char>
    decreases s.len(),
{
    if dot_or_slash_tail(s, s.len() as int) {
        strip_dot_and_slash_tail(s.drop_last())
    } else {
        s
    }
}

/// The name an uploaded file carries: the path's final normal segment — the
/// characters after the last `/` once trailing separators and `.` segments
/// are ignored — or the full path string when no file name can be extracted
/// from the path: when nothing remains after that stripping, or the final
/// segment is the parent-directory `..`, which names no file.
pub open spec fn upload_name(path: Seq<char>) -> Seq<char> {
    let seg = suffix_after_last_slash(strip_dot_and_slash_tail(path));
    if seg.len() == 0 || seg == ".."@ {
        path
    } else {
        seg
    }
}

proof fn lemma_suffix_after_last_slash(s: Seq<char>, i: int)
    requires
        0 <= i <= s.len(),
        forall|j: int| i <= j < s.len() ==> s[j] != '/',
        i == 0 || s[i - 1] == '/',
    ensures
        suffix_after_last_slash(s) == s.subrange(i, s.len() as int),
    decreases s.len(),
{
    if i == s.len() {
        if i == 0 {
            assert(suffix_after_last_slash(s) =~= s.subrange(0, 0));
        } else {
            assert(s.last() == '/');
            assert(suffix_after_last_slash(s) =~= s.subrange(i, i));
        }
    } else {
        assert(s.last() == s[s.len() - 1]);
        assert(s.last() != '/');
        let t = s.drop_last();
        assert(forall|j: int| i <= j < t.len() ==> t[j] != '/');
        if i > 0 {
            assert(t[i - 1] == s[i - 1]);
        }
        lemma_suffix_after_last_slash(t, i);
        assert(suffix_after_last_slash(s) =~= s.subrange(i, s.len() as int));
    }
}

fn has_dot_or_slash_tail(path: &str, end: usize) -> (r: bool)
    requires
        end <= path@.len(),
    ensures
        r == dot_or_slash_tail(path@, end as int),
{
    if end == 0 {
        false
    } else {
        let c = path.get_char(end - 1);
        if c == '/' {
            true
        } else if c == '.' {
            end == 1 || path.get_char(end - 2) == '/'
        } else {
            false
        }
    }
}

/// Derives the name an uploaded file carries from its path: the final
/// normal path segment, with trailing `/` separators and `.` segments
/// ignored, or the full path string when the path holds no extractable
/// segment or ends in the parent-directory `..` — exactly as `upload_name`
/// states it.
pub fn file_name_of(path: &str) -> (r: String)
    ensures
        r@ == upload_name(path@),
{
    let n = path.unicode_len();
    proof {
        assert(path@.subrange(0, n as int) =~= path@);
    }
    let mut end: usize = n;
    while has_dot_or_slash_tail(path, end)
        invariant
            n == path@.len(),
            end <= n,
            strip_dot_and_slash_tail(path@) == strip_dot_and_slash_tail(
                path@.subrange(0, end as int),
            ),
        decreases end,
    {
        proof {
            let pre = path@.subrange(0, end as int);
            assert(pre.len() == end);
            assert(pre.last() == path@[end - 1]);
            if end >= 2 {
                assert(pre[end - 2] == path@[end - 2]);
            }
            assert(dot_or_slash_tail(pre, pre.len() as int));
            assert(pre.drop_last() =~= path@.subrange(0, end - 1));
        }
        end = end - 1;
    }
    let ghost trimmed = path@.subrange(0, end as int);
    proof {
        if end > 0 {
            assert(trimmed.last() == path@[end - 1]);
            if end >= 2 {
                assert(trimmed[end - 2] == path@[end - 2]);
            }
        }
        assert(!dot_or_slash_tail(trimmed, trimmed.len() as int));
        assert(strip_dot_and_slash_tail(path@) == trimmed);
    }
    let mut i: usize = end;
    while i > 0 && path.get_char(i - 1) != '/'
        invariant
            n == path@.len(),
            i <= end <= n,
            forall|j: int| i <= j < end ==> path@[j] != '/',
        decreases i,
    {
        i = i - 1;
    }
    proof {
        assert(forall|j: int| i <= j < trimmed.len() ==> trimmed[j] != '/');
        if i > 0 {
            assert(trimmed[i - 1] == path@[i - 1]);
        }
        lemma_suffix_after_last_slash(trimmed, i as int);
        assert(trimmed.subrange(i as int, trimmed.len() as int) =~= path@.subrange(
            i as int,
            end as int,
        ));
        reveal_strlit("..");
    }
    let seg_is_parent = if end - i == 2 {
        path.get_char(i) == '.' && path.get_char(i + 1) == '.'
    } else {
        false
    };
    proof {
        let seg = suffix_after_last_slash(trimmed);
        assert(seg == path@.subrange(i as int, end as int));
        if seg_is_parent {
            assert(seg =~= ".."@);
        } else if seg.len() == 2 {
            assert(seg[0] == path@[i as int]);
            assert(seg[1] == path@[i + 1]);
            assert(!(path@[i as int] == '.' && path@[i + 1] == '.'));
            assert(".."@[0] == '.' && ".."@[1] == '.');
            assert(seg != ".."@);
        }
    }
    if i == end || seg_is_parent {
        String::from_str(path)
    } else {
        let seg = path.substring_char(i, end);
        String::from_str(seg)
    }
}

/// Everything one bulk upload sends: the URL to post to, the name the single
/// `data` part carries, and the file's bytes.
#[derive(Debug)]
pub struct ImportRequest {
    pub url: String,
    pub file_name: String,
    pub data: Vec<u8>,
}

/// A client of one database server: the server's base URL, stored verbatim,
/// and the shared HTTP transport handle. Immutable after construction; safe
/// to share across concurrent calls.
pub struct QuestDB {
    url: String,
    client: reqwest::Client,
}

impl QuestDB {
    /// The base URL the client was constructed with.
    pub closed spec fn base_url(&self) -> Seq<char> {
        self.url@
    }

    /// Creates a new connection handle. The URL is stored verbatim — no
    /// validation, no trailing-slash normalization — and construction cannot
    /// fail.
    pub fn new(url: &str) -> (r: Self)
        ensures
            r.base_url() == url@,
    {
        QuestDB { client: new_transport(), url: String::from_str(url) }
    }

    /// The shared transport handle, for the caller that performs the actual
    /// HTTP exchange.
    pub fn transport(&self) -> &reqwest::Client {
        &self.client
    }

    /// Builds the query-execution URL, exactly as `exec_url_str` states it:
    /// the query text percent-encoded in full, then each present optional
    /// parameter appended in `name=value` form in declaration order, with
    /// absent parameters omitted entirely. The query may span lines but
    /// should not include a statement terminator such as `;` — it is encoded
    /// and passed through either way, and the server rejects it itself.
    pub fn exec_url(
        &self,
        query: &str,
        limit: Option<PagingRange>,
        count: Option<bool>,
        nm: Option<bool>,
    ) -> (r: String)
        ensures
            r@ == exec_url_str(self.base_url(), query.spec_bytes(), limit, count, nm),
    {
        let mut url = self.url.clone();
        url.append("/exec?query=");
        let q = url_encode(query);
        url.append(q.as_str());
        match limit {
            Some(l) => {
                url.append("&limit=");
                let v = l.as_query_value();
                url.append(v.as_str());
            },
            None => {},
        }
        match count {
            Some(b) => {
                url.append("&count=");
                url.append(bool_to_text(b));
            },
            None => {},
        }
        match nm {
            Some(b) => {
                url.append("&nm=");
                url.append(bool_to_text(b));
            },
            None => {},
        }
        proof {
            assert(url@ =~= exec_url_str(self.base_url(), query.spec_bytes(), limit, count, nm));
        }
        url
    }

    /// Builds the bulk-upload URL, exactly as `imp_url_str` states it: the
    /// table name verbatim, then each present optional parameter in
    /// declaration order, with absent parameters omitted entirely.
    pub fn imp_url(
        &self,
        table_name: &str,
        overwrite: Option<bool>,
        durable: Option<bool>,
        atomicity: Option<Atomicity>,
    ) -> (r: String)
        ensures
            r@ == imp_url_str(self.base_url(), table_name@, overwrite, durable, atomicity),
    {
        let mut url = self.url.clone();
        url.append("/imp?fmt=json&name=");
        url.append(table_name);
        match overwrite {
            Some(b) => {
                url.append("&overwrite=");
                url.append(bool_to_text(b));
            },
            None => {},
        }
        match durable {
            Some(b) => {
                url.append("&durable=");
                url.append(bool_to_text(b));
            },
            None => {},
        }
        match atomicity {
            Some(a) => {
                url.append("&atomicity=");
                url.append(a.as_query_value());
            },
            None => {},
        }
        proof {
            assert(url@ =~= imp_url_str(
                self.base_url(),
                table_name@,
                overwrite,
                durable,
                atomicity,
            ));
        }
        url
    }

    /// Builds the export URL, exactly as `exp_url_str` states it. Unlike the
    /// execution URL the query text goes in verbatim, not percent-encoded —
    /// an inconsistency in the observed wire contract, preserved because
    /// encoding it could change what existing servers receive.
    pub fn exp_url(&self, query: &str, limit: Option<PagingRange>) -> (r: String)
        ensures
            r@ == exp_url_str(self.base_url(), query@, limit),
    {
        let mut url = self.url.clone();
        url.append("/exp?query=");
        url.append(query);
        match limit {
            Some(l) => {
                url.append("&limit=");
                let v = l.as_query_value();
                url.append(v.as_str());
            },
            None => {},
        }
        proof {
            assert(url@ =~= exp_url_str(self.base_url(), query@, limit));
        }
        url
    }

    /// Prepares a bulk upload from the outcome of reading the source file.
    /// A failed read becomes `IoError` carrying the reader's message and no
    /// request is formed, so nothing can reach the network; a successful
    /// read yields the whole request: the URL as `imp_url_str` states it,
    /// the upload name derived from the path as `upload_name` states it, and
    /// the file's bytes unchanged.
    pub fn import_request(
        &self,
        file_path: &str,
        table_name: &str,
        overwrite: Option<bool>,
        durable: Option<bool>,
        atomicity: Option<Atomicity>,
        file_contents: Result<Vec<u8>, String>,
    ) -> (r: Result<ImportRequest, ClientError>)
        ensures
            (match file_contents {
                Err(m) => r == Err::<ImportRequest, ClientError>(ClientError::IoError(m)),
                Ok(bytes) => (r matches Ok(req) && req.url@ == imp_url_str(
                    self.base_url(),
                    table_name@,
                    overwrite,
                    durable,
                    atomicity,
                ) && req.file_name@ == upload_name(file_path@) && req.data@ == bytes@),
            }),
    {
        match file_contents {
            Err(m) => Err(ClientError::IoError(m)),
            Ok(bytes) => {
                let url = self.imp_url(table_name, overwrite, durable, atomicity);
                let name = file_name_of(file_path);
                Ok(ImportRequest { url, file_name: name, data: bytes })
            },
        }
    }
}

} // verus!
