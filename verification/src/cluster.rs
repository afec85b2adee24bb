//! What a member says of the cluster in the headers of its answer.

use vstd::prelude::*;
use vstd::string::*;
use vstd::utf8::is_ascii_chars;

verus! {

/// One header line of an answer.
#[derive(Debug, Clone, PartialEq, Eq, Hash)]
pub struct Header {
    /// The name of the field, in the case in which it came.
    pub name: String,
    /// The bytes of the value.
    pub value: Vec<u8>,
}

/// A header line as mathematical values.
pub struct HeaderView {
    pub name: Seq<char>,
    pub value: Seq<u8>,
}

impl View for Header {
    type V = HeaderView;

    open spec fn view(&self) -> HeaderView {
        HeaderView { name: self.name@, value: self.value@ }
    }
}

/// The header lines of an answer as mathematical values, in the order in which they came.
pub open spec fn lines(headers: Seq<Header>) -> Seq<HeaderView> {
    Seq::new(headers.len(), |i: int| headers[i]@)
}

/// Information about the state of the cluster at the time of an answer.
#[derive(Debug, Clone, PartialEq, Eq, Hash)]
pub struct ClusterInfo {
    /// The identifier of the cluster.
    pub cluster_id: Option<String>,
    /// The index of etcd.
    pub etcd_index: Option<u64>,
    /// The index of raft.
    pub raft_index: Option<u64>,
    /// The term of raft.
    pub raft_term: Option<u64>,
}

/// The information about a cluster as mathematical values.
pub struct ClusterInfoView {
    pub cluster_id: Option<Seq<char>>,
    pub etcd_index: Option<u64>,
    pub raft_index: Option<u64>,
    pub raft_term: Option<u64>,
}

impl View for ClusterInfo {
    type V = ClusterInfoView;

    open spec fn view(&self) -> ClusterInfoView {
        ClusterInfoView {
            cluster_id: match self.cluster_id {
                Some(id) => Some(id@),
                None => None,
            },
            etcd_index: self.etcd_index,
            raft_index: self.raft_index,
            raft_term: self.raft_term,
        }
    }
}

/// The data of a successful answer, with what the member said of the cluster.
#[derive(Debug, Clone, PartialEq, Eq, Hash)]
pub struct Response<T> {
    /// What the call was made for.
    pub data: T,
    /// The state of the cluster at the time of the answer.
    pub cluster_info: ClusterInfo,
}

/// A successful answer as mathematical values.
pub struct ResponseView<T> {
    pub data: T,
    pub cluster_info: ClusterInfoView,
}

impl<T> View for Response<T> {
    type V = ResponseView<T>;

    open spec fn view(&self) -> ResponseView<T> {
        ResponseView { data: self.data, cluster_info: self.cluster_info@ }
    }
}

/// The number of a character, with that of the small letter for a capital ASCII letter.
pub open spec fn fold_case(c: char) -> int {
    if 'A' <= c <= 'Z' {
        c as int + 32
    } else {
        c as int
    }
}

/// Two field names are the same: they differ at most in the case of ASCII letters.
pub open spec fn names_match(name: Seq<char>, wanted: Seq<char>) -> bool {
    &&& name.len() == wanted.len()
    &&& forall|i: int| 0 <= i < name.len() ==> fold_case(#[trigger] name[i]) == fold_case(wanted[i])
}

/// The line at position `i` is the only one of the wanted name.
pub open spec fn is_sole(headers: Seq<HeaderView>, wanted: Seq<char>, i: int) -> bool {
    &&& 0 <= i < headers.len()
    &&& names_match(headers[i].name, wanted)
    &&& forall|j: int|
        0 <= j < headers.len() && names_match((#[trigger] headers[j]).name, wanted) ==> j == i
}

/// The value of the wanted field: that of its line, where the answer holds exactly one line of
/// that name and the line is not empty.
pub open spec fn sole_line(headers: Seq<HeaderView>, wanted: Seq<char>) -> Option<Seq<u8>> {
    if exists|i: int| is_sole(headers, wanted, i) {
        let value = headers[choose|i: int| is_sole(headers, wanted, i)].value;
        if value.len() > 0 {
            Some(value)
        } else {
            None
        }
    } else {
        None
    }
}

/// The number that `hyper::header::parsing::from_raw_str` reads from the bytes of a header
/// value, if it reads one.
pub uninterp spec fn raw_u64(line: Seq<u8>) -> Option<u64>;

/// The text that `hyper::header::parsing::from_raw_str` reads from the bytes of a header
/// value, if it reads one.
pub uninterp spec fn raw_text(line: Seq<u8>) -> Option<Seq<char>>;

/// The number in a field of the headers, where the field has one and hyper reads it.
pub open spec fn number_field(headers: Seq<HeaderView>, wanted: Seq<char>) -> Option<u64> {
    match sole_line(headers, wanted) {
        Some(line) => raw_u64(line),
        None => None,
    }
}

/// The text in a field of the headers, where the field has one and hyper reads it.
pub open spec fn text_field(headers: Seq<HeaderView>, wanted: Seq<char>) -> Option<Seq<char>> {
    match sole_line(headers, wanted) {
        Some(line) => raw_text(line),
        None => None,
    }
}

/// What the headers of an answer say of the cluster. A field that is missing, that comes on
/// more than one line or that cannot be read is absent.
pub open spec fn cluster_info(headers: Seq<HeaderView>) -> ClusterInfoView {
    ClusterInfoView {
        cluster_id: text_field(headers, "X-Etcd-Cluster-Id"@),
        etcd_index: number_field(headers, "X-Etcd-Index"@),
        raft_index: number_field(headers, "X-Raft-Index"@),
        raft_term: number_field(headers, "X-Raft-Term"@),
    }
}

/// Calls `hyper::header::parsing::from_raw_str::<u64>`, which reads a header value as a
/// number. The result is claimed to depend on the bytes alone; what it is on given bytes is
/// not stated.
#[verifier::external_body]
fn read_u64(line: &[u8]) -> (r: Option<u64>)
    ensures
        r == raw_u64(line@),
{
    hyper::header::parsing::from_raw_str::<u64>(line).ok()
}

/// Calls `hyper::header::parsing::from_raw_str::<String>`, which reads a header value as a
/// text. The result is claimed to depend on the bytes alone; what it is on given bytes is
/// not stated.
#[verifier::external_body]
fn read_text(line: &[u8]) -> (r: Option<String>)
    ensures
        r matches Some(text) ==> raw_text(line@) == Some(text@),
        r is None ==> raw_text(line@) is None,
{
    hyper::header::parsing::from_raw_str::<String>(line).ok()
}

/// The byte of an ASCII character, with that of the small letter for a capital letter.
fn fold_byte(b: u8) -> (r: u8)
    requires
        b <= 0x7f,
    ensures
        r as int == fold_case(b as char),
{
    if b >= 65 && b <= 90 {
        b + 32
    } else {
        b
    }
}

/// The number of a character, with that of the small letter for a capital ASCII letter.
fn fold_char(c: char) -> (r: u32)
    ensures
        r as int == fold_case(c),
{
    let n = c as u32;
    if n >= 65 && n <= 90 {
        n + 32
    } else {
        n
    }
}

/// Whether two field names are the same.
pub fn same_name(name: &str, wanted: &str) -> (r: bool)
    ensures
        r == names_match(name@, wanted@),
{
    let n = name.unicode_len();
    if n != wanted.unicode_len() {
        return false;
    }
    let ascii = name.is_ascii() && wanted.is_ascii();
    let mut i: usize = 0;
    while i < n
        invariant
            i <= n,
            n == name@.len(),
            n == wanted@.len(),
            ascii ==> is_ascii_chars(name@) && is_ascii_chars(wanted@),
            forall|j: int| 0 <= j < i ==> fold_case(#[trigger] name@[j]) == fold_case(wanted@[j]),
        decreases n - i,
    {
        let same = if ascii {
            let a = name.get_ascii(i);
            let b = wanted.get_ascii(i);
            fold_byte(a) == fold_byte(b)
        } else {
            fold_char(name.get_char(i)) == fold_char(wanted.get_char(i))
        };
        if !same {
            return false;
        }
        i = i + 1;
    }
    true
}

/// Finds the value of a field in the headers of an answer.
pub fn find_line<'a>(headers: &'a Vec<Header>, wanted: &str) -> (r: Option<&'a Vec<u8>>)
    ensures
        r matches Some(value) ==> sole_line(lines(headers@), wanted@) == Some(value@),
        r is None ==> sole_line(lines(headers@), wanted@) is None,
{
    let ghost all = lines(headers@);
    let mut found: Option<usize> = None;
    let mut twice = false;
    let mut i: usize = 0;
    while i < headers.len()
        invariant
            i <= headers.len(),
            all == lines(headers@),
            found is None ==> !twice && forall|j: int|
                0 <= j < i ==> !names_match((#[trigger] all[j]).name, wanted@),
            found matches Some(k) ==> k < i && names_match(all[k as int].name, wanted@),
            found matches Some(k) ==> !twice ==> forall|j: int|
                0 <= j < i && names_match((#[trigger] all[j]).name, wanted@) ==> j == k,
            found matches Some(k) ==> twice ==> exists|j: int|
                0 <= j < i && j != k && names_match((#[trigger] all[j]).name, wanted@),
        decreases headers.len() - i,
    {
        assert(all[i as int] == headers@[i as int]@);
        if same_name(headers[i].name.as_str(), wanted) {
            match found {
                Some(_) => {
                    twice = true;
                },
                None => {
                    found = Some(i);
                },
            }
        }
        i = i + 1;
    }
    match found {
        Some(k) => {
            if twice || headers[k].value.len() == 0 {
                None
            } else {
                proof {
                    lemma_sole_is_chosen(all, wanted@, k as int);
                }
                Some(&headers[k].value)
            }
        },
        None => None,
    }
}

/// Where a line is the only one of its name, it is the one that `sole_line` speaks of.
proof fn lemma_sole_is_chosen(headers: Seq<HeaderView>, wanted: Seq<char>, k: int)
    requires
        is_sole(headers, wanted, k),
    ensures
        sole_line(headers, wanted) == if headers[k].value.len() > 0 {
            Some(headers[k].value)
        } else {
            None
        },
{
}

impl ClusterInfo {
    /// Reads what the headers of an answer say of the cluster. Nothing here fails: a field
    /// that is missing or cannot be read is left absent.
    pub fn from_headers(headers: &Vec<Header>) -> (r: ClusterInfo)
        ensures
            r@ == cluster_info(lines(headers@)),
    {
        let cluster_id = match find_line(headers, "X-Etcd-Cluster-Id") {
            Some(line) => read_text(line.as_slice()),
            None => None,
        };
        let etcd_index = match find_line(headers, "X-Etcd-Index") {
            Some(line) => read_u64(line.as_slice()),
            None => None,
        };
        let raft_index = match find_line(headers, "X-Raft-Index") {
            Some(line) => read_u64(line.as_slice()),
            None => None,
        };
        let raft_term = match find_line(headers, "X-Raft-Term") {
            Some(line) => read_u64(line.as_slice()),
            None => None,
        };
        ClusterInfo { cluster_id, etcd_index, raft_index, raft_term }
    }
}

} // verus!
