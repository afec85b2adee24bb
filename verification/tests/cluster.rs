use etcd_auth::cluster::{find_line, same_name};
use etcd_auth::{ClusterInfo, Header};

fn header(name: &str, value: &str) -> Header {
    Header { name: name.to_owned(), value: value.as_bytes().to_vec() }
}

fn nothing() -> ClusterInfo {
    ClusterInfo { cluster_id: None, etcd_index: None, raft_index: None, raft_term: None }
}

#[test]
fn no_headers_give_no_information() {
    assert_eq!(ClusterInfo::from_headers(&vec![]), nothing());
}

#[test]
fn all_four_fields_are_read() {
    let headers = vec![
        header("Content-Type", "application/json"),
        header("X-Etcd-Cluster-Id", "7e27652122e8b2ae"),
        header("X-Etcd-Index", "35"),
        header("X-Raft-Index", "5398"),
        header("X-Raft-Term", "2"),
    ];
    assert_eq!(
        ClusterInfo::from_headers(&headers),
        ClusterInfo {
            cluster_id: Some("7e27652122e8b2ae".to_owned()),
            etcd_index: Some(35),
            raft_index: Some(5398),
            raft_term: Some(2),
        }
    );
}

#[test]
fn names_are_found_in_any_case() {
    let headers = vec![header("x-etcd-index", "1"), header("X-RAFT-TERM", "9")];
    let info = ClusterInfo::from_headers(&headers);
    assert_eq!(info.etcd_index, Some(1));
    assert_eq!(info.raft_term, Some(9));
    assert_eq!(info.raft_index, None);
    assert_eq!(info.cluster_id, None);
}

#[test]
fn values_are_trimmed() {
    let headers = vec![header("X-Etcd-Index", "  42 "), header("X-Etcd-Cluster-Id", " abc ")];
    let info = ClusterInfo::from_headers(&headers);
    assert_eq!(info.etcd_index, Some(42));
    assert_eq!(info.cluster_id, Some("abc".to_owned()));
}

#[test]
fn a_number_that_cannot_be_read_is_absent() {
    for value in ["abc", "-1", "1.5", "18446744073709551616", "1 2"] {
        let info = ClusterInfo::from_headers(&vec![header("X-Raft-Index", value)]);
        assert_eq!(info, nothing(), "{}", value);
    }
    let info = ClusterInfo::from_headers(&vec![header("X-Raft-Index", "18446744073709551615")]);
    assert_eq!(info.raft_index, Some(u64::MAX));
}

#[test]
fn a_value_that_is_no_text_is_absent() {
    let headers = vec![
        Header { name: "X-Etcd-Cluster-Id".to_owned(), value: vec![0xff, 0xfe] },
        Header { name: "X-Etcd-Index".to_owned(), value: vec![0x31, 0xff] },
    ];
    assert_eq!(ClusterInfo::from_headers(&headers), nothing());
}

#[test]
fn an_empty_value_is_absent() {
    let headers = vec![header("X-Etcd-Cluster-Id", ""), header("X-Etcd-Index", "")];
    assert_eq!(ClusterInfo::from_headers(&headers), nothing());
}

#[test]
fn a_field_on_two_lines_is_absent() {
    let headers = vec![
        header("X-Etcd-Index", "1"),
        header("X-Raft-Term", "3"),
        header("x-etcd-index", "1"),
    ];
    let info = ClusterInfo::from_headers(&headers);
    assert_eq!(info.etcd_index, None);
    assert_eq!(info.raft_term, Some(3));
}

#[test]
fn find_line_gives_the_bytes_of_the_only_line() {
    let headers = vec![header("A", "1"), header("B", "2"), header("b", "3"), header("C", "")];
    assert_eq!(find_line(&headers, "a"), Some(&b"1".to_vec()));
    assert_eq!(find_line(&headers, "B"), None);
    assert_eq!(find_line(&headers, "C"), None);
    assert_eq!(find_line(&headers, "D"), None);
}

#[test]
fn same_name_ignores_the_case_of_ascii_letters_only() {
    assert!(same_name("X-Etcd-Index", "x-etcd-index"));
    assert!(same_name("", ""));
    assert!(same_name("AZaz09-_", "azAZ09-_"));
    assert!(!same_name("X-Etcd-Index", "X-Etcd-Inde"));
    assert!(!same_name("X-Etcd-Index", "X_Etcd-Index"));
    assert!(!same_name("@", "`"));
    assert!(!same_name("[", "{"));
    assert!(same_name("é-A", "é-a"));
    assert!(!same_name("É", "é"));
    assert!(!same_name("é", "e"));
}
