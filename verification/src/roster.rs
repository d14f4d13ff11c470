//! Roster snapshots: what one successful player query saw on one endpoint.

use vstd::prelude::*;

verus! {

/// One connected player as reported by a single poll.
#[derive(Debug, PartialEq, Eq)]
pub struct PlayerSnapshot {
    /// Display name; the de-facto key within one roster.
    pub name: String,
    pub score: i32,
    /// Whole seconds the player has been connected.
    pub duration: u64,
}

/// Mathematical value of a [`PlayerSnapshot`].
pub struct SnapshotView {
    pub name: Seq<char>,
    pub score: i32,
    pub duration: u64,
}

impl View for PlayerSnapshot {
    type V = SnapshotView;

    open spec fn view(&self) -> SnapshotView {
        SnapshotView { name: self.name@, score: self.score, duration: self.duration }
    }
}

impl DeepView for PlayerSnapshot {
    type V = SnapshotView;

    open spec fn deep_view(&self) -> SnapshotView {
        self@
    }
}

impl Clone for PlayerSnapshot {
    fn clone(&self) -> (res: Self)
        ensures
            res == *self,
    {
        PlayerSnapshot { name: self.name.clone(), score: self.score, duration: self.duration }
    }
}

/// Some entry of `roster` carries `name`.
pub open spec fn has_name(roster: Seq<SnapshotView>, name: Seq<char>) -> bool {
    exists|i: int| 0 <= i < roster.len() && (#[trigger] roster[i]).name == name
}

/// `i` is the position of the first entry of `roster` that carries `name`.
pub open spec fn is_first_named(roster: Seq<SnapshotView>, name: Seq<char>, i: int) -> bool {
    &&& 0 <= i < roster.len()
    &&& roster[i].name == name
    &&& forall|j: int| 0 <= j < i ==> (#[trigger] roster[j]).name != name
}

/// The first entry of `roster` that carries `name`, if there is one.
pub open spec fn lookup(roster: Seq<SnapshotView>, name: Seq<char>) -> Option<SnapshotView> {
    if has_name(roster, name) {
        Some(roster[choose|i: int| is_first_named(roster, name, i)])
    } else {
        None
    }
}

/// Finds the first entry of `roster` named `name`.
pub fn find_player<'a>(roster: &'a Vec<PlayerSnapshot>, name: &String) -> (found: Option<
    &'a PlayerSnapshot,
>)
    ensures
        found.is_some() == has_name(roster.deep_view(), name@),
        match found {
            Some(p) => lookup(roster.deep_view(), name@) == Some(p@),
            None => lookup(roster.deep_view(), name@).is_none(),
        },
{
    let ghost view = roster.deep_view();
    let mut i: usize = 0;
    while i < roster.len()
        invariant
            i <= roster.len(),
            view == roster.deep_view(),
            forall|j: int| 0 <= j < i ==> (#[trigger] view[j]).name != name@,
        decreases roster.len() - i,
    {
        if roster[i].name == *name {
            proof {
                let k = i as int;
                assert(view[k] == roster[k]@);
                assert(is_first_named(view, name@, k));
                let c = choose|c: int| is_first_named(view, name@, c);
                assert(is_first_named(view, name@, c));
                assert(c == k) by {
                    if c < k {
                        assert(view[c].name != name@);
                    } else if k < c {
                        assert(view[k].name != name@);
                    }
                }
            }
            return Some(&roster[i]);
        }
        proof {
            assert(view[i as int] == roster[i as int]@);
        }
        i += 1;
    }
    None
}

} // verus!
