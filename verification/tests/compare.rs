use bstr::BStr;
use git_refspec::Fetch;
use git_refspec::Instruction;
use git_refspec::Mode;
use git_refspec::Operation;
use git_refspec::Push;
use git_refspec::RefSpecRef;
use std::cmp::Ordering;
use std::collections::hash_map::DefaultHasher;
use std::hash::Hash;
use std::hash::Hasher;

fn b(s: &str) -> &BStr {
    BStr::new(s)
}

fn spec<'a>(
    op: Operation,
    mode: Mode,
    src: Option<&'a str>,
    dst: Option<&'a str>,
) -> RefSpecRef<'a> {
    RefSpecRef::new(op, mode, src.map(b), dst.map(b)).unwrap()
}

fn hash_of<T: Hash>(value: &T) -> u64 {
    let mut hasher = DefaultHasher::new();
    value.hash(&mut hasher);
    hasher.finish()
}

fn samples<'a>() -> Vec<RefSpecRef<'a>> {
    let mut out = Vec::new();
    for op in [Operation::Fetch, Operation::Push] {
        for mode in [Mode::Normal, Mode::Force, Mode::Negative] {
            for src in [None, Some("a"), Some("ab"), Some("b")] {
                for dst in [None, Some("a"), Some("b")] {
                    if let Ok(s) = RefSpecRef::new(op, mode, src.map(b), dst.map(b)) {
                        out.push(s);
                    }
                }
            }
        }
    }
    out
}

#[test]
fn equal_parts_are_equal() {
    let x = spec(Operation::Fetch, Mode::Normal, Some("refs/heads/main"), Some("refs/x"));
    let y = spec(Operation::Fetch, Mode::Normal, Some("refs/heads/main"), Some("refs/x"));
    assert_eq!(x, y);
    assert_eq!(hash_of(&x), hash_of(&y));
    assert_eq!(x.cmp(&y), Ordering::Equal);
}

#[test]
fn different_bytes_are_not_equal() {
    let x = spec(Operation::Fetch, Mode::Normal, Some("refs/heads/main"), None);
    let y = spec(Operation::Fetch, Mode::Normal, Some("refs/heads/next"), None);
    assert_ne!(x, y);
    let x = spec(Operation::Push, Mode::Normal, Some("a"), Some("b"));
    let y = spec(Operation::Push, Mode::Normal, Some("a"), Some("c"));
    assert_ne!(x, y);
}

#[test]
fn different_operations_are_not_equal() {
    let x = spec(Operation::Fetch, Mode::Normal, Some("a"), Some("b"));
    let y = spec(Operation::Push, Mode::Normal, Some("a"), Some("b"));
    assert_ne!(x, y);
}

#[test]
fn force_sets_mode_apart() {
    let x = spec(Operation::Push, Mode::Normal, Some("a"), Some("b"));
    let y = spec(Operation::Push, Mode::Force, Some("a"), Some("b"));
    assert_ne!(x, y);
    let x = spec(Operation::Fetch, Mode::Normal, Some("a"), Some("b"));
    let y = spec(Operation::Fetch, Mode::Force, Some("a"), Some("b"));
    assert_ne!(x, y);
}

#[test]
fn mode_without_meaning_is_ignored() {
    let x = spec(Operation::Fetch, Mode::Normal, Some("a"), None);
    let y = spec(Operation::Fetch, Mode::Force, Some("a"), None);
    assert_eq!(x, y);
    assert_eq!(hash_of(&x), hash_of(&y));
    assert_eq!(x.cmp(&y), Ordering::Equal);
    let x = spec(Operation::Push, Mode::Normal, None, Some("gone"));
    let y = spec(Operation::Push, Mode::Force, None, Some("gone"));
    assert_eq!(x, y);
    assert_eq!(hash_of(&x), hash_of(&y));
}

#[test]
fn push_by_name_equals_push_to_the_same_name() {
    let by_name = spec(Operation::Push, Mode::Normal, Some("main"), None);
    let explicit = spec(Operation::Push, Mode::Normal, Some("main"), Some("main"));
    assert_ne!(by_name.destination(), explicit.destination());
    assert_eq!(by_name, explicit);
    assert_eq!(hash_of(&by_name), hash_of(&explicit));
    assert_eq!(by_name.cmp(&explicit), Ordering::Equal);
    assert_eq!(by_name.partial_cmp(&explicit), Some(Ordering::Equal));
}

#[test]
fn equality_is_an_equivalence() {
    let all = samples();
    for x in &all {
        assert!(x == x);
        for y in &all {
            assert_eq!(x == y, y == x);
            assert_eq!(x == y, x.instruction() == y.instruction());
            for z in &all {
                if x == y && y == z {
                    assert!(x == z);
                }
            }
        }
    }
}

#[test]
fn equal_refspecs_hash_alike() {
    let all = samples();
    for x in &all {
        for y in &all {
            if x == y {
                assert_eq!(hash_of(x), hash_of(y));
            }
        }
    }
}

#[test]
fn hash_depends_on_the_instruction() {
    let x = spec(Operation::Fetch, Mode::Normal, Some("refs/heads/main"), None);
    let y = spec(Operation::Fetch, Mode::Normal, Some("refs/heads/next"), None);
    assert_ne!(hash_of(&x), hash_of(&y));
}

#[test]
fn order_is_a_strict_total_order() {
    let all = samples();
    for x in &all {
        assert_eq!(x.cmp(x), Ordering::Equal);
        for y in &all {
            assert_eq!(x.cmp(y), y.cmp(x).reverse());
            assert_eq!(x.partial_cmp(y), Some(x.cmp(y)));
            assert_eq!(x.cmp(y) == Ordering::Equal, x == y);
            assert_eq!(x < y, x.cmp(y) == Ordering::Less);
            for z in &all {
                if x.cmp(y) == Ordering::Less && y.cmp(z) == Ordering::Less {
                    assert_eq!(x.cmp(z), Ordering::Less);
                }
            }
        }
    }
}

#[test]
fn order_goes_by_bytes_within_a_variant() {
    let a = spec(Operation::Fetch, Mode::Normal, Some("a"), None);
    let ab = spec(Operation::Fetch, Mode::Normal, Some("ab"), None);
    let b_ = spec(Operation::Fetch, Mode::Normal, Some("b"), None);
    assert_eq!(a.cmp(&ab), Ordering::Less);
    assert_eq!(ab.cmp(&b_), Ordering::Less);
    assert_eq!(b_.cmp(&a), Ordering::Greater);
    let x = spec(Operation::Push, Mode::Normal, Some("a"), Some("z"));
    let y = spec(Operation::Push, Mode::Normal, Some("b"), Some("a"));
    assert_eq!(x.cmp(&y), Ordering::Less);
    let x = spec(Operation::Push, Mode::Normal, Some("a"), Some("a"));
    let y = spec(Operation::Push, Mode::Normal, Some("a"), Some("b"));
    assert_eq!(x.cmp(&y), Ordering::Less);
}

#[test]
fn order_puts_unforced_before_forced() {
    let x = spec(Operation::Push, Mode::Normal, Some("a"), Some("b"));
    let y = spec(Operation::Push, Mode::Force, Some("a"), Some("b"));
    assert_eq!(x.cmp(&y), Ordering::Less);
    let x = spec(Operation::Push, Mode::Normal, None, None);
    let y = spec(Operation::Push, Mode::Force, None, None);
    assert_eq!(x.cmp(&y), Ordering::Less);
    assert_eq!(y.cmp(&x), Ordering::Greater);
}

#[test]
fn order_goes_by_variant_first() {
    let only = spec(Operation::Fetch, Mode::Normal, Some("z"), None);
    let and_update = spec(Operation::Fetch, Mode::Normal, Some("a"), Some("a"));
    let exclude = spec(Operation::Fetch, Mode::Negative, Some("a"), None);
    let matching = spec(Operation::Push, Mode::Normal, Some("z"), Some("z"));
    let delete = spec(Operation::Push, Mode::Normal, None, Some("a"));
    let all_matching = spec(Operation::Push, Mode::Normal, None, None);
    let in_order = [only, and_update, exclude, matching, delete, all_matching];
    for i in 0..in_order.len() {
        for j in 0..in_order.len() {
            assert_eq!(in_order[i].cmp(&in_order[j]), i.cmp(&j));
        }
    }
}

#[test]
fn instructions_compare_as_their_derived_order() {
    let all = samples();
    for x in &all {
        for y in &all {
            let (i, j) = (x.instruction(), y.instruction());
            assert_eq!(i.partial_cmp(&j), Some(Ord::cmp(&i, &j)));
            assert_eq!(x.cmp(y), Ord::cmp(&i, &j));
        }
    }
}

#[test]
fn instruction_equality_goes_by_bytes() {
    let left = String::from("refs/heads/main");
    let right = String::from("refs/heads/main");
    assert_eq!(
        Instruction::Fetch(Fetch::Only { src: b(&left) }),
        Instruction::Fetch(Fetch::Only { src: b(&right) })
    );
    assert_ne!(
        Instruction::Fetch(Fetch::Only { src: b("a") }),
        Instruction::Fetch(Fetch::Exclude { src: b("a") })
    );
    assert_ne!(
        Instruction::Push(Push::Delete { ref_or_pattern: b("a") }),
        Instruction::Push(Push::Delete { ref_or_pattern: b("b") })
    );
}

#[test]
fn owned_compares_as_borrowed() {
    let all = samples();
    for x in &all {
        for y in &all {
            let (ox, oy) = (x.to_owned(), y.to_owned());
            assert_eq!(ox == oy, x == y);
            assert_eq!(ox.cmp(&oy), x.cmp(y));
            assert_eq!(ox.partial_cmp(&oy), x.partial_cmp(y));
            assert_eq!(hash_of(&ox), hash_of(x));
        }
    }
}
