//! The finalizer that keeps a resource from being removed before the
//! controller has cleaned up after it: one well-known name that is put
//! on the list of finalizers of a resource and taken off it again, with
//! every other finalizer left where it is.

use crate::kubernetes::ObjectMeta;
use crate::operator::reconciler::Error;
use crate::text::{concat, str_eq};
use vstd::prelude::*;
use vstd::string::StringExecFns;

verus! {

/// The finalizer that the controller puts on its resources.
pub const FINALIZER: &'static str = "sftpgo.zlepper.dk/finalizer";

/// The names in a list of finalizers.
pub open spec fn names(list: Seq<String>) -> Seq<Seq<char>> {
    list.map_values(|s: String| s@)
}

/// Whether the controller's finalizer is on a list.
pub open spec fn has_finalizer(list: Seq<Seq<char>>) -> bool {
    list.contains(FINALIZER@)
}

/// A list with the controller's finalizer on it: the list itself where
/// it holds the finalizer, else the list with the finalizer at its end.
pub open spec fn with_finalizer(list: Seq<Seq<char>>) -> Seq<Seq<char>> {
    if has_finalizer(list) {
        list
    } else {
        list.push(FINALIZER@)
    }
}

/// A list without the controller's finalizer: every other name, in
/// order.
pub open spec fn without_finalizer(list: Seq<Seq<char>>) -> Seq<Seq<char>>
    decreases list.len(),
{
    if list.len() == 0 {
        list
    } else if list.last() == FINALIZER@ {
        without_finalizer(list.drop_last())
    } else {
        without_finalizer(list.drop_last()).push(list.last())
    }
}

/// Whether two lists hold the same finalizers but for the
/// controller's.
pub open spec fn same_others(a: Seq<Seq<char>>, b: Seq<Seq<char>>) -> bool {
    forall|x: Seq<char>| x != FINALIZER@ ==> (#[trigger] a.contains(x) <==> b.contains(x))
}

/// Putting the finalizer on a list puts it on and keeps every
/// finalizer that the list had.
pub proof fn lemma_with_finalizer(list: Seq<Seq<char>>)
    ensures
        has_finalizer(with_finalizer(list)),
        forall|x: Seq<char>| list.contains(x) ==> #[trigger] with_finalizer(list).contains(x),
        same_others(with_finalizer(list), list),
        has_finalizer(list) ==> with_finalizer(list) == list,
{
    if !has_finalizer(list) {
        let after = list.push(FINALIZER@);
        assert(after[list.len() as int] == FINALIZER@);
        assert forall|x: Seq<char>| list.contains(x) implies #[trigger] after.contains(x) by {
            let i = list.index_of(x);
            assert(after[i] == x);
        }
        assert forall|x: Seq<char>| x != FINALIZER@ implies (#[trigger] after.contains(x)
            <==> list.contains(x)) by {
            if after.contains(x) {
                let i = after.index_of(x);
                assert(list[i] == x);
            }
        }
    }
}

/// Taking the finalizer off a list takes it off and keeps every other
/// finalizer that the list had; a list without it stays as it is.
pub proof fn lemma_without_finalizer(list: Seq<Seq<char>>)
    ensures
        !has_finalizer(without_finalizer(list)),
        same_others(without_finalizer(list), list),
        !has_finalizer(list) ==> without_finalizer(list) == list,
    decreases list.len(),
{
    if list.len() > 0 {
        let head = list.drop_last();
        let last = list.last();
        lemma_without_finalizer(head);
        let kept = without_finalizer(head);
        let after = without_finalizer(list);
        assert forall|x: Seq<char>| list.contains(x) <==> (head.contains(x) || x == last) by {
            if list.contains(x) {
                let i = list.index_of(x);
                if i < head.len() {
                    assert(head[i] == x);
                }
            }
            if head.contains(x) {
                let i = head.index_of(x);
                assert(list[i] == x);
            }
            if x == last {
                assert(list[list.len() - 1] == x);
            }
        }
        if last == FINALIZER@ {
            assert(after == kept);
            assert forall|x: Seq<char>| x != FINALIZER@ implies (#[trigger] after.contains(x)
                <==> list.contains(x)) by {
                assert(kept.contains(x) <==> head.contains(x));
            }
        } else {
            assert(after == kept.push(last));
            assert forall|x: Seq<char>| after.contains(x) <==> (kept.contains(x) || x == last) by {
                if after.contains(x) {
                    let i = after.index_of(x);
                    if i < kept.len() {
                        assert(kept[i] == x);
                    }
                }
                if kept.contains(x) {
                    let i = kept.index_of(x);
                    assert(after[i] == x);
                }
                if x == last {
                    assert(after[kept.len() as int] == x);
                }
            }
            assert forall|x: Seq<char>| x != FINALIZER@ implies (#[trigger] after.contains(x)
                <==> list.contains(x)) by {
                assert(kept.contains(x) <==> head.contains(x));
            }
            if !has_finalizer(list) {
                assert(!has_finalizer(head));
                assert(kept.push(last) =~= list);
            }
        }
    }
}

/// A merge patch of `metadata.finalizers`: the list that the resource
/// is to carry.
#[derive(Debug, Clone, PartialEq, Eq)]
pub struct FinalizerPatch {
    pub finalizers: Vec<String>,
}

impl View for FinalizerPatch {
    type V = Seq<Seq<char>>;

    open spec fn view(&self) -> Seq<Seq<char>> {
        names(self.finalizers@)
    }
}

/// Whether the controller's finalizer is on a list.
pub fn carries_finalizer(list: &Vec<String>) -> (b: bool)
    ensures
        b == has_finalizer(names(list@)),
{
    let mut i: usize = 0;
    while i < list.len()
        invariant
            i <= list.len(),
            forall|k: int| 0 <= k < i ==> names(list@)[k] != FINALIZER@,
        decreases list.len() - i,
    {
        if str_eq(list[i].as_str(), FINALIZER) {
            assert(names(list@)[i as int] == FINALIZER@);
            return true;
        }
        i += 1;
    }
    false
}

/// A copy of a list of finalizers.
pub fn copy_names(list: &Vec<String>) -> (copy: Vec<String>)
    ensures
        names(copy@) == names(list@),
{
    let mut copy: Vec<String> = Vec::new();
    let mut i: usize = 0;
    while i < list.len()
        invariant
            i <= list.len(),
            names(copy@) == names(list@).take(i as int),
        decreases list.len() - i,
    {
        let name = list[i].clone();
        proof {
            assert(names(copy@.push(name)) =~= names(copy@).push(name@));
            assert(names(list@).take(i as int).push(names(list@)[i as int]) =~= names(list@).take(
                i + 1,
            ));
        }
        copy.push(name);
        i += 1;
    }
    assert(names(list@).take(i as int) =~= names(list@));
    copy
}

/// The patch that puts the controller's finalizer on a list: the list
/// is kept and the finalizer added at its end, unless it is there.
pub fn put_on(list: &Vec<String>) -> (patch: FinalizerPatch)
    ensures
        patch@ == with_finalizer(names(list@)),
{
    let mut finalizers = copy_names(list);
    if !carries_finalizer(list) {
        let name = FINALIZER.to_owned();
        proof {
            assert(names(finalizers@.push(name)) =~= names(list@).push(FINALIZER@));
        }
        finalizers.push(name);
    }
    FinalizerPatch { finalizers }
}

/// The patch that takes the controller's finalizer off a list: every
/// other finalizer is kept, in order.
pub fn take_off(list: &Vec<String>) -> (patch: FinalizerPatch)
    ensures
        patch@ == without_finalizer(names(list@)),
{
    let mut finalizers: Vec<String> = Vec::new();
    let mut i: usize = 0;
    while i < list.len()
        invariant
            i <= list.len(),
            names(finalizers@) == without_finalizer(names(list@).take(i as int)),
        decreases list.len() - i,
    {
        proof {
            let next = names(list@).take(i + 1);
            assert(next.drop_last() =~= names(list@).take(i as int));
            assert(next.last() == list@[i as int]@);
        }
        if !str_eq(list[i].as_str(), FINALIZER) {
            let name = list[i].clone();
            proof {
                assert(names(finalizers@.push(name)) =~= names(finalizers@).push(name@));
            }
            finalizers.push(name);
        }
        i += 1;
    }
    assert(names(list@).take(i as int) =~= names(list@));
    FinalizerPatch { finalizers }
}

/// The patch that puts the controller's finalizer on a resource: the
/// finalizers that it carries, and the controller's.
pub fn add_finalizer(metadata: &ObjectMeta) -> (patch: FinalizerPatch)
    ensures
        patch@ == with_finalizer(metadata.spec_finalizers()),
{
    match &metadata.finalizers {
        Some(list) => put_on(list),
        None => {
            let empty: Vec<String> = Vec::new();
            proof {
                assert(names(empty@) =~= Seq::<Seq<char>>::empty());
            }
            put_on(&empty)
        },
    }
}

/// What is to be done so that a resource does not carry the
/// controller's finalizer: nothing where it is not on the resource,
/// else the patch that takes it off and keeps every other finalizer.
pub fn remove_finalizer(metadata: &ObjectMeta) -> (patch: Option<FinalizerPatch>)
    ensures
        match patch {
            None => !has_finalizer(metadata.spec_finalizers()),
            Some(p) => has_finalizer(metadata.spec_finalizers()) && p@ == without_finalizer(
                metadata.spec_finalizers(),
            ),
        },
{
    match &metadata.finalizers {
        Some(list) => if carries_finalizer(list) {
            Some(take_off(list))
        } else {
            None
        },
        None => {
            assert(!Seq::<Seq<char>>::empty().contains(FINALIZER@));
            None
        },
    }
}

/// The message for a resource of kind `kind` without namespace.
pub open spec fn namespace_message(kind: Seq<char>) -> Seq<char> {
    "Expected "@ + kind + " resource to be namespaced. Can't deploy to unknown namespace."@
}

/// What is to be done so that a resource of kind `kind` carries the
/// controller's finalizer: nothing where it is on the resource, else
/// the patch that adds it and keeps every finalizer that is there. A
/// resource without namespace is refused.
pub fn ensure_finalizer(metadata: &ObjectMeta, kind: &str) -> (r: Result<Option<FinalizerPatch>, Error>)
    ensures
        match metadata.namespace {
            None => r matches Err(Error::UserInput(m)) && m@ == namespace_message(kind@),
            Some(_) => if has_finalizer(metadata.spec_finalizers()) {
                r matches Ok(None)
            } else {
                r matches Ok(Some(p)) && p@ == metadata.spec_finalizers().push(FINALIZER@)
            },
        },
{
    if metadata.namespace.is_none() {
        let mut message = concat("Expected ", kind);
        message.append(" resource to be namespaced. Can't deploy to unknown namespace.");
        return Err(Error::UserInput(message));
    }
    let present = match &metadata.finalizers {
        Some(list) => carries_finalizer(list),
        None => {
            assert(!Seq::<Seq<char>>::empty().contains(FINALIZER@));
            false
        },
    };
    if present {
        Ok(None)
    } else {
        Ok(Some(add_finalizer(metadata)))
    }
}

} // verus!
