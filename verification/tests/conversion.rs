use bstr::BStr;
use git_refspec::Mode;
use git_refspec::Operation;
use git_refspec::RefSpec;
use git_refspec::RefSpecRef;

fn b(s: &str) -> &BStr {
    BStr::new(s)
}

fn all_specs<'a>() -> Vec<RefSpecRef<'a>> {
    let mut out = Vec::new();
    for op in [Operation::Fetch, Operation::Push] {
        for mode in [Mode::Normal, Mode::Force, Mode::Negative] {
            for src in [None, Some(b("refs/heads/main"))] {
                for dst in [None, Some(b("refs/remotes/origin/main"))] {
                    if let Ok(s) = RefSpecRef::new(op, mode, src, dst) {
                        out.push(s);
                    }
                }
            }
        }
    }
    out
}

#[test]
fn owned_copy_keeps_both_sides() {
    let s = RefSpecRef::new(Operation::Fetch, Mode::Force, Some(b("from")), Some(b("to"))).unwrap();
    let owned = s.to_owned();
    assert_eq!(owned.to_ref().source(), Some(b("from")));
    assert_eq!(owned.to_ref().destination(), Some(b("to")));
    assert_eq!(owned.to_ref().remote(), Some(b("from")));
    assert_eq!(owned.to_ref().local(), Some(b("to")));
}

#[test]
fn owned_copy_outlives_the_buffer() {
    let owned: RefSpec = {
        let buffer = String::from("refs/heads/main");
        let s = RefSpecRef::new(Operation::Push, Mode::Normal, Some(b(&buffer)), None).unwrap();
        s.to_owned()
    };
    assert_eq!(owned.to_ref().source(), Some(b("refs/heads/main")));
    assert_eq!(owned.to_ref().destination(), None);
}

#[test]
fn round_trip_keeps_the_instruction() {
    for s in all_specs() {
        let owned = s.to_owned();
        let back = owned.to_ref();
        assert_eq!(back.instruction(), s.instruction());
        assert_eq!(back.source(), s.source());
        assert_eq!(back.destination(), s.destination());
        assert_eq!(back.prefix(), s.prefix());
        assert_eq!(back, s);
    }
}

#[test]
fn from_is_to_owned() {
    for s in all_specs() {
        let owned = RefSpec::from(s);
        assert_eq!(owned, s.to_owned());
        assert_eq!(owned.to_ref().instruction(), s.instruction());
    }
}

#[test]
fn clone_is_an_equal_copy() {
    for s in all_specs() {
        let owned = s.to_owned();
        let copy = owned.clone();
        assert_eq!(copy, owned);
        assert_eq!(copy.to_ref().source(), owned.to_ref().source());
        assert_eq!(copy.to_ref().destination(), owned.to_ref().destination());
    }
}
