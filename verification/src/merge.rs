//! Merging two lists of bindings where the first binding of a key wins, as
//! the configuration does with user and default key bindings and themes.

use vstd::prelude::*;

verus! {

/// Whether some binding in `bindings` is for `key`.
pub open spec fn binds<K, T>(bindings: Seq<(K, T)>, key: K) -> bool {
    exists|i: int| 0 <= i < bindings.len() && #[trigger] bindings[i].0 == key
}

/// The bindings of `acc`, followed by those of `rest` whose key is not
/// bound yet, in order: the first binding of a key wins.
pub open spec fn merge_bindings<K, T>(acc: Seq<(K, T)>, rest: Seq<(K, T)>) -> Seq<(K, T)>
    decreases rest.len(),
{
    if rest.len() == 0 {
        acc
    } else {
        let next = if binds(acc, rest[0].0) {
            acc
        } else {
            acc.push(rest[0])
        };
        merge_bindings(next, rest.drop_first())
    }
}

/// No key is bound twice.
pub open spec fn bound_once<K, T>(bindings: Seq<(K, T)>) -> bool {
    forall|i: int, j: int|
        0 <= i < j < bindings.len() ==> #[trigger] bindings[i].0 != #[trigger] bindings[j].0
}

/// Binding more key keeps every key sequence bound.
proof fn lemma_binds_push<K, T>(acc: Seq<(K, T)>, b: (K, T), key: K)
    requires
        binds(acc, key),
    ensures
        binds(acc.push(b), key),
{
    let i = choose|i: int| 0 <= i < acc.len() && #[trigger] acc[i].0 == key;
    assert(acc.push(b)[i].0 == key);
}

/// What merging keeps and adds, for any starting bindings `acc`.
proof fn lemma_merge<K, T>(acc: Seq<(K, T)>, rest: Seq<(K, T)>)
    ensures
        merge_bindings(acc, rest).len() >= acc.len(),
        merge_bindings(acc, rest).take(acc.len() as int) == acc,
        forall|key: K| binds(acc, key) ==> binds(merge_bindings(acc, rest), key),
        forall|i: int| 0 <= i < rest.len() ==> binds(merge_bindings(acc, rest), #[trigger] rest[i].0),
        forall|i: int|
            acc.len() <= i < merge_bindings(acc, rest).len() ==> rest.contains(
                #[trigger] merge_bindings(acc, rest)[i],
            ),
        bound_once(acc) ==> bound_once(merge_bindings(acc, rest)),
    decreases rest.len(),
{
    let m = merge_bindings(acc, rest);
    if rest.len() == 0 {
        assert(acc.take(acc.len() as int) =~= acc);
    } else {
        let pushed = !binds(acc, rest[0].0);
        let next = if pushed {
            acc.push(rest[0])
        } else {
            acc
        };
        let tail = rest.drop_first();
        lemma_merge(next, tail);
        assert(m == merge_bindings(next, tail));
        assert(m.take(acc.len() as int) =~= next.take(next.len() as int).take(acc.len() as int));
        assert(next.take(acc.len() as int) =~= acc);
        assert forall|key: K| binds(acc, key) implies binds(m, key) by {
            if pushed {
                lemma_binds_push(acc, rest[0], key);
            }
        }
        assert(binds(next, rest[0].0)) by {
            if pushed {
                assert(next[acc.len() as int].0 == rest[0].0);
            }
        }
        assert forall|i: int| 0 <= i < rest.len() implies binds(m, #[trigger] rest[i].0) by {
            if i > 0 {
                assert(tail[i - 1] == rest[i]);
            }
        }
        assert forall|i: int| acc.len() <= i < m.len() implies rest.contains(#[trigger] m[i]) by {
            if i < next.len() {
                assert(m[i] == m.take(next.len() as int)[i]);
                assert(m[i] == rest[0]);
            } else {
                let j = choose|j: int| 0 <= j < tail.len() && tail[j] == m[i];
                assert(rest[j + 1] == m[i]);
            }
        }
        if bound_once(acc) {
            assert forall|i: int, j: int|
                0 <= i < j < next.len() implies #[trigger] next[i].0 != #[trigger] next[j].0 by {
                if pushed && j == acc.len() {
                    assert(next[i] == acc[i]);
                }
            }
        }
    }
}

/// Merging bindings `user` with `current`, the first binding of a key
/// winning, keeps those of `user`, first and in order; binds every key that
/// either binds; adds only bindings of `current`; and, where `user` binds no
/// key twice, binds none twice.
pub proof fn law_merge_user_bindings<K, T>(user: Seq<(K, T)>, current: Seq<(K, T)>)
    ensures
        merge_bindings(user, current).take(user.len() as int) == user,
        forall|i: int| 0 <= i < user.len() ==> binds(merge_bindings(user, current), #[trigger] user[i].0),
        forall|i: int|
            0 <= i < current.len() ==> binds(merge_bindings(user, current), #[trigger] current[i].0),
        forall|i: int|
            user.len() <= i < merge_bindings(user, current).len() ==> current.contains(
                #[trigger] merge_bindings(user, current)[i],
            ),
        bound_once(user) ==> bound_once(merge_bindings(user, current)),
{
    lemma_merge(user, current);
    assert forall|i: int| 0 <= i < user.len() implies binds(
        merge_bindings(user, current),
        #[trigger] user[i].0,
    ) by {
        assert(binds(user, user[i].0));
    }
}

} // verus!
