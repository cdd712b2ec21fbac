use vstd::prelude::*;
use crate::principal::{names, Principal};

verus! {

/// The authorization rule: a caller may administer a unit exactly when the
/// caller is one of the unit's controllers.
pub open spec fn authorized(caller: Seq<u8>, controllers: Seq<Seq<u8>>) -> bool {
    controllers.contains(caller)
}

/// Decides whether `caller` is among `controllers`.
pub fn is_authorized(caller: &Principal, controllers: &Vec<Principal>) -> (ok: bool)
    ensures
        ok == authorized(caller@, names(controllers@)),
{
    let mut i: usize = 0;
    while i < controllers.len()
        invariant
            i <= controllers.len(),
            forall|k: int| 0 <= k < i ==> controllers@[k]@ != caller@,
        decreases controllers.len() - i,
    {
        if controllers[i].same(caller) {
            assert(names(controllers@)[i as int] == caller@);
            return true;
        }
        i += 1;
    }
    assert(!names(controllers@).contains(caller@)) by {
        if names(controllers@).contains(caller@) {
            let k = choose|k: int| 0 <= k < names(controllers@).len() && names(controllers@)[k] == caller@;
            assert(controllers@[k]@ == caller@);
        }
    }
    false
}

/// Nobody is authorized by an empty controller list.
pub proof fn nobody_authorized_by_empty_list(caller: Seq<u8>)
    ensures
        !authorized(caller, Seq::<Seq<u8>>::empty()),
{
}

/// A sole controller is authorized, and nobody else is.
pub proof fn sole_controller_is_the_only_authorized(caller: Seq<u8>, controller: Seq<u8>)
    ensures
        authorized(caller, seq![controller]) <==> caller == controller,
{
    if caller == controller {
        assert(seq![controller][0] == caller);
    }
}

/// The ordered set that a list of principals stands for: each principal
/// once, at the place where the list names it first.
pub open spec fn as_set(list: Seq<Seq<u8>>) -> Seq<Seq<u8>>
    decreases list.len(),
{
    if list.len() == 0 {
        Seq::empty()
    } else {
        let before = as_set(list.drop_last());
        if before.contains(list.last()) {
            before
        } else {
            before.push(list.last())
        }
    }
}

/// What `as_set` keeps and what it drops: the result names nobody twice,
/// names exactly the principals of the list, is empty only for an empty
/// list, and is the list itself where the list names nobody twice.
pub proof fn as_set_names_the_same_principals(list: Seq<Seq<u8>>)
    ensures
        as_set(list).no_duplicates(),
        forall|p: Seq<u8>| #[trigger] as_set(list).contains(p) <==> list.contains(p),
        as_set(list).len() <= list.len(),
        list.len() > 0 ==> as_set(list).len() > 0,
        list.no_duplicates() ==> as_set(list) == list,
    decreases list.len(),
{
    if list.len() > 0 {
        let front = list.drop_last();
        let last = list.last();
        let before = as_set(front);
        let whole = as_set(list);
        as_set_names_the_same_principals(front);
        assert forall|p: Seq<u8>| #[trigger] whole.contains(p) <==> list.contains(p) by {
            if list.contains(p) {
                let k = choose|k: int| 0 <= k < list.len() && list[k] == p;
                if k < list.len() - 1 {
                    assert(front[k] == p);
                    assert(before.contains(p));
                    let j = choose|j: int| 0 <= j < before.len() && before[j] == p;
                    assert(whole[j] == p);
                } else {
                    assert(p == last);
                    if !before.contains(last) {
                        assert(whole[before.len() as int] == p);
                    }
                }
            }
            if whole.contains(p) {
                let j = choose|j: int| 0 <= j < whole.len() && whole[j] == p;
                if j < before.len() {
                    assert(before[j] == p);
                    assert(before.contains(p));
                    assert(front.contains(p));
                    let k = choose|k: int| 0 <= k < front.len() && front[k] == p;
                    assert(list[k] == p);
                } else {
                    assert(list[list.len() - 1] == p);
                }
            }
        }
        if list.no_duplicates() {
            assert(front.no_duplicates());
            if front.contains(last) {
                let k = choose|k: int| 0 <= k < front.len() && front[k] == last;
                assert(list[k] == list[list.len() - 1]);
            }
            assert(whole =~= list);
        }
    } else {
        assert(as_set(list) =~= list);
    }
}

/// A list of one principal is a set as it stands.
pub proof fn one_principal_is_a_set(p: Seq<u8>)
    ensures
        as_set(seq![p]) == seq![p],
{
    as_set_names_the_same_principals(seq![p]);
}

/// Drops every repeated principal from a list, keeping the first mention
/// of each in its place.
pub fn to_set(list: &Vec<Principal>) -> (out: Vec<Principal>)
    ensures
        names(out@) == as_set(names(list@)),
{
    let mut out: Vec<Principal> = Vec::new();
    let mut i: usize = 0;
    assert(names(list@).take(0) =~= Seq::<Seq<u8>>::empty());
    assert(names(out@) =~= Seq::<Seq<u8>>::empty());
    while i < list.len()
        invariant
            i <= list.len(),
            names(out@) == as_set(names(list@).take(i as int)),
        decreases list.len() - i,
    {
        let ghost before = names(out@);
        let ghost upto = names(list@).take(i as int + 1);
        assert(upto.drop_last() =~= names(list@).take(i as int));
        assert(upto.last() == list@[i as int]@);
        if !is_authorized(&list[i], &out) {
            out.push(list[i].duplicate());
            assert(names(out@) =~= before.push(list@[i as int]@));
        }
        i += 1;
    }
    assert(names(list@).take(list.len() as int) =~= names(list@));
    out
}

} // verus!
