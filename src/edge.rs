use vstd::prelude::*;

verus! {

/// A key as the input sensor reports it.
pub type KeyCode = u32;

/// What the edge detector reports for one tracked hotkey on one tick.
#[derive(PartialEq, Eq, Structural, Clone, Copy, Debug)]
pub enum KeyEdge {
    /// The key is held on this tick.
    KeyHeld,
    /// The key was held on the previous tick and is not held now.
    KeyJustReleased,
    /// Neither: the key is up and was up, or no key is bound.
    NoEvent,
}

/// The previous snapshot as a sequence, if there is one.
pub open spec fn snapshot_view(previous: Option<Vec<KeyCode>>) -> Option<Seq<KeyCode>> {
    match previous {
        Some(v) => Some(v@),
        None => None,
    }
}

/// The edge of `hotkey` between two snapshots; no previous snapshot counts as
/// nothing held.
pub open spec fn edge_of(
    previous: Option<Seq<KeyCode>>,
    current: Seq<KeyCode>,
    hotkey: Option<KeyCode>,
) -> KeyEdge {
    match hotkey {
        None => KeyEdge::NoEvent,
        Some(k) => if current.contains(k) {
            KeyEdge::KeyHeld
        } else if previous is Some && previous->0.contains(k) {
            KeyEdge::KeyJustReleased
        } else {
            KeyEdge::NoEvent
        },
    }
}

/// Whether `key` is among `keys`.
pub fn holds_key(keys: &Vec<KeyCode>, key: KeyCode) -> (r: bool)
    ensures
        r == keys@.contains(key),
{
    let mut i: usize = 0;
    while i < keys.len()
        invariant
            i <= keys@.len(),
            forall|j: int| 0 <= j < i ==> keys@[j] != key,
        decreases keys@.len() - i,
    {
        if keys[i] == key {
            return true;
        }
        i = i + 1;
    }
    false
}

/// Turns the level-sampled state of `hotkey` into an edge: held now, released
/// since the previous snapshot, or nothing.
pub fn detect_edge(
    previous: &Option<Vec<KeyCode>>,
    current: &Vec<KeyCode>,
    hotkey: Option<KeyCode>,
) -> (r: KeyEdge)
    ensures
        r == edge_of(snapshot_view(*previous), current@, hotkey),
{
    match hotkey {
        None => KeyEdge::NoEvent,
        Some(k) => {
            if holds_key(current, k) {
                KeyEdge::KeyHeld
            } else {
                match previous {
                    Some(p) => if holds_key(p, k) {
                        KeyEdge::KeyJustReleased
                    } else {
                        KeyEdge::NoEvent
                    },
                    None => KeyEdge::NoEvent,
                }
            }
        },
    }
}

/// The edge of `key` on tick `i` of a run of snapshots; tick 0 has no
/// previous snapshot.
pub open spec fn edge_at(snaps: Seq<Seq<KeyCode>>, key: KeyCode, i: int) -> KeyEdge {
    edge_of(if i == 0 { None } else { Some(snaps[i - 1]) }, snaps[i], Some(key))
}

/// Whether `key` is held on tick `i` of a run of snapshots.
pub open spec fn held_at(snaps: Seq<Seq<KeyCode>>, key: KeyCode, i: int) -> bool {
    snaps[i].contains(key)
}

proof fn lemma_release_follows(snaps: Seq<Seq<KeyCode>>, key: KeyCode, i: int, j: int)
    requires
        0 <= i < j < snaps.len(),
        held_at(snaps, key, i),
        !held_at(snaps, key, j),
    ensures
        exists|m: int| i < m <= j && #[trigger] edge_at(snaps, key, m) == KeyEdge::KeyJustReleased,
    decreases j - i,
{
    if !held_at(snaps, key, i + 1) {
        assert(edge_at(snaps, key, i + 1) == KeyEdge::KeyJustReleased);
    } else {
        lemma_release_follows(snaps, key, i + 1, j);
    }
}

/// Over any run of key snapshots, the toggle edge of a bound key fires exactly
/// once per press-then-release cycle: it fires on a tick exactly when the key
/// goes from held to not held; between two such edges the key is pressed
/// again; and whenever the key is held and later up, an edge fires in between,
/// however many ticks it stayed held or up.
pub proof fn lemma_toggle_once_per_cycle(snaps: Seq<Seq<KeyCode>>, key: KeyCode)
    ensures
        forall|i: int|
            0 <= i < snaps.len() ==> (#[trigger] edge_at(snaps, key, i)
                == KeyEdge::KeyJustReleased <==> (i > 0 && held_at(snaps, key, i - 1)
                && !held_at(snaps, key, i))),
        forall|i: int, j: int|
            0 <= i < j < snaps.len() && #[trigger] edge_at(snaps, key, i)
                == KeyEdge::KeyJustReleased && #[trigger] edge_at(snaps, key, j)
                == KeyEdge::KeyJustReleased ==> exists|m: int|
                i < m < j && #[trigger] held_at(snaps, key, m),
        forall|i: int, j: int|
            0 <= i < j < snaps.len() && #[trigger] held_at(snaps, key, i) && !#[trigger] held_at(
                snaps,
                key,
                j,
            ) ==> exists|m: int|
                i < m <= j && #[trigger] edge_at(snaps, key, m) == KeyEdge::KeyJustReleased,
{
    assert forall|i: int, j: int|
        0 <= i < j < snaps.len() && #[trigger] edge_at(snaps, key, i) == KeyEdge::KeyJustReleased
            && #[trigger] edge_at(snaps, key, j)
            == KeyEdge::KeyJustReleased implies exists|m: int|
        i < m < j && #[trigger] held_at(snaps, key, m) by {
        assert(held_at(snaps, key, j - 1));
        assert(!held_at(snaps, key, i));
    }
    assert forall|i: int, j: int|
        0 <= i < j < snaps.len() && #[trigger] held_at(snaps, key, i) && !#[trigger] held_at(
            snaps,
            key,
            j,
        ) implies exists|m: int|
        i < m <= j && #[trigger] edge_at(snaps, key, m) == KeyEdge::KeyJustReleased by {
        lemma_release_follows(snaps, key, i, j);
    }
}

} // verus!
