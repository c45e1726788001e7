use bstr::BStr;
use git_refspec::Mode;
use git_refspec::Operation;
use git_refspec::RefSpecRef;

fn b(s: &str) -> &BStr {
    BStr::new(s)
}

#[test]
fn source_and_destination_are_the_two_sides() {
    let s = RefSpecRef::new(Operation::Fetch, Mode::Normal, Some(b("left")), Some(b("right"))).unwrap();
    assert_eq!(s.source(), Some(b("left")));
    assert_eq!(s.destination(), Some(b("right")));
}

#[test]
fn deletion_has_no_source() {
    let s = RefSpecRef::new(Operation::Push, Mode::Normal, None, Some(b("gone"))).unwrap();
    assert_eq!(s.source(), None);
    assert_eq!(s.destination(), Some(b("gone")));
}

#[test]
fn source_only_has_no_destination() {
    let s = RefSpecRef::new(Operation::Fetch, Mode::Normal, Some(b("only")), None).unwrap();
    assert_eq!(s.source(), Some(b("only")));
    assert_eq!(s.destination(), None);
    let s = RefSpecRef::new(Operation::Push, Mode::Normal, Some(b("only")), None).unwrap();
    assert_eq!(s.source(), Some(b("only")));
    assert_eq!(s.destination(), None);
}

#[test]
fn fetch_takes_its_source_from_the_remote() {
    let s = RefSpecRef::new(Operation::Fetch, Mode::Normal, Some(b("theirs")), Some(b("ours"))).unwrap();
    assert_eq!(s.remote(), Some(b("theirs")));
    assert_eq!(s.local(), Some(b("ours")));
}

#[test]
fn push_sends_its_source_to_the_remote() {
    let s = RefSpecRef::new(Operation::Push, Mode::Normal, Some(b("ours")), Some(b("theirs"))).unwrap();
    assert_eq!(s.remote(), Some(b("theirs")));
    assert_eq!(s.local(), Some(b("ours")));
}

#[test]
fn remote_and_local_are_source_and_destination() {
    for op in [Operation::Fetch, Operation::Push] {
        for mode in [Mode::Normal, Mode::Force, Mode::Negative] {
            for src in [None, Some(b("s"))] {
                for dst in [None, Some(b("d"))] {
                    if let Ok(s) = RefSpecRef::new(op, mode, src, dst) {
                        let sides = match op {
                            Operation::Fetch => (s.remote(), s.local()),
                            Operation::Push => (s.local(), s.remote()),
                        };
                        assert_eq!(sides, (s.source(), s.destination()));
                    }
                }
            }
        }
    }
}

fn prefix_of(source: &str) -> Option<&BStr> {
    RefSpecRef::new(Operation::Fetch, Mode::Normal, Some(b(source)), None).unwrap().prefix()
}

#[test]
fn prefix_of_a_branch_is_its_namespace() {
    assert_eq!(prefix_of("refs/heads/main"), Some(b("refs/heads/")));
}

#[test]
fn prefix_with_wildcard_is_none() {
    assert_eq!(prefix_of("refs/*/main"), None);
    assert_eq!(prefix_of("refs/he*ds/main"), None);
    assert_eq!(prefix_of("refs/*/"), None);
}

#[test]
fn wildcard_after_the_prefix_does_not_matter() {
    assert_eq!(prefix_of("refs/heads/*"), Some(b("refs/heads/")));
    assert_eq!(prefix_of("refs/heads/feature/*"), Some(b("refs/heads/")));
}

#[test]
fn prefix_without_marker_is_none() {
    assert_eq!(prefix_of("HEAD"), None);
    assert_eq!(prefix_of("ref/heads/main"), None);
    assert_eq!(prefix_of("xrefs/heads/main"), None);
    assert_eq!(prefix_of("refs"), None);
    assert_eq!(prefix_of(""), None);
}

#[test]
fn prefix_without_second_segment_is_none() {
    assert_eq!(prefix_of("refs/"), None);
    assert_eq!(prefix_of("refs/heads"), None);
}

#[test]
fn prefix_stops_at_the_first_separator() {
    assert_eq!(prefix_of("refs/remotes/origin/main"), Some(b("refs/remotes/")));
    assert_eq!(prefix_of("refs/tags/"), Some(b("refs/tags/")));
    assert_eq!(prefix_of("refs//"), Some(b("refs//")));
}

#[test]
fn prefix_comes_from_the_source_side() {
    let s = RefSpecRef::new(Operation::Push, Mode::Normal, Some(b("refs/heads/a")), Some(b("refs/tags/a"))).unwrap();
    assert_eq!(s.prefix(), Some(b("refs/heads/")));
    let s = RefSpecRef::new(Operation::Push, Mode::Normal, None, Some(b("refs/tags/a"))).unwrap();
    assert_eq!(s.prefix(), None);
}
