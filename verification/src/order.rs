use vstd::prelude::*;

verus! {

/// How two coordinates compare: `Tied` when neither is smaller than the other
/// (equal, or not comparable).
#[derive(Clone, Copy, PartialEq, Eq, Debug, Structural)]
pub enum CoordOrder {
    Less,
    Greater,
    Tied,
}

/// The order of two points taken coordinate by coordinate.
#[derive(Clone, Copy, PartialEq, Eq, Debug, Structural)]
pub enum LexOrder {
    Less,
    Equal,
    Greater,
}

/// The first coordinate that is not tied decides; all tied is `Equal`.
pub open spec fn spec_lexicographic(coords: Seq<CoordOrder>) -> LexOrder
    decreases coords.len(),
{
    if coords.len() == 0 {
        LexOrder::Equal
    } else {
        match coords[0] {
            CoordOrder::Less => LexOrder::Less,
            CoordOrder::Greater => LexOrder::Greater,
            CoordOrder::Tied => spec_lexicographic(coords.drop_first()),
        }
    }
}

/// Orders two points by the comparisons of their coordinates, first coordinate first.
pub fn lexicographic(coords: &Vec<CoordOrder>) -> (r: LexOrder)
    ensures
        r == spec_lexicographic(coords@),
        forall|i: int|
            0 <= i < coords.len() && (forall|j: int| 0 <= j < i ==> #[trigger] coords@[j] is Tied)
                ==> ((#[trigger] coords@[i] is Less ==> r is Less) && (coords@[i] is Greater
                ==> r is Greater)),
        (forall|j: int| 0 <= j < coords.len() ==> #[trigger] coords@[j] is Tied) ==> r is Equal,
{
    proof {
        lemma_first_untied_decides(coords@);
    }
    let mut i: usize = 0;
    assert(coords@.skip(0) =~= coords@);
    while i < coords.len()
        invariant
            i <= coords.len(),
            spec_lexicographic(coords@) == spec_lexicographic(coords@.skip(i as int)),
        decreases coords.len() - i,
    {
        assert(coords@.skip(i as int).drop_first() =~= coords@.skip(i + 1));
        match coords[i] {
            CoordOrder::Less => {
                proof {
                    lemma_first_untied_decides(coords@);
                }
                return LexOrder::Less;
            },
            CoordOrder::Greater => {
                proof {
                    lemma_first_untied_decides(coords@);
                }
                return LexOrder::Greater;
            },
            CoordOrder::Tied => {},
        }
        i = i + 1;
    }
    LexOrder::Equal
}

pub open spec fn flip_coord(c: CoordOrder) -> CoordOrder {
    match c {
        CoordOrder::Less => CoordOrder::Greater,
        CoordOrder::Greater => CoordOrder::Less,
        CoordOrder::Tied => CoordOrder::Tied,
    }
}

pub open spec fn flip_lex(o: LexOrder) -> LexOrder {
    match o {
        LexOrder::Less => LexOrder::Greater,
        LexOrder::Greater => LexOrder::Less,
        LexOrder::Equal => LexOrder::Equal,
    }
}

/// Swapping the two points reverses their order, and two points are `Equal`
/// exactly when every coordinate is tied.
pub proof fn lemma_lexicographic_antisymmetric(coords: Seq<CoordOrder>)
    ensures
        spec_lexicographic(coords.map_values(|c: CoordOrder| flip_coord(c))) == flip_lex(
            spec_lexicographic(coords),
        ),
        (spec_lexicographic(coords) is Equal) <==> (forall|i: int|
            0 <= i < coords.len() ==> #[trigger] coords[i] is Tied),
    decreases coords.len(),
{
    if coords.len() > 0 {
        let flipped = coords.map_values(|c: CoordOrder| flip_coord(c));
        assert(flipped.drop_first() =~= coords.drop_first().map_values(|c: CoordOrder| flip_coord(c)));
        lemma_lexicographic_antisymmetric(coords.drop_first());
        if coords[0] is Tied {
            assert forall|i: int| 0 <= i < coords.len() && (forall|k: int|
                0 <= k < coords.drop_first().len() ==> #[trigger] coords.drop_first()[k] is Tied)
                implies #[trigger] coords[i] is Tied by {
                if i > 0 {
                    assert(coords.drop_first()[i - 1] == coords[i]);
                }
            }
        }
    }
}

/// The first coordinate that is not tied decides the order, whatever the later
/// coordinates are: if every coordinate before position `i` is tied, a smaller
/// coordinate at `i` makes the first point smaller and a greater one makes it
/// greater; when every coordinate is tied the points are equal.
pub proof fn lemma_first_untied_decides(coords: Seq<CoordOrder>)
    ensures
        forall|i: int|
            0 <= i < coords.len() && (forall|j: int| 0 <= j < i ==> #[trigger] coords[j] is Tied)
                ==> ((#[trigger] coords[i] is Less ==> spec_lexicographic(coords) is Less) && (
                coords[i] is Greater ==> spec_lexicographic(coords) is Greater)),
        (forall|j: int| 0 <= j < coords.len() ==> #[trigger] coords[j] is Tied)
            ==> spec_lexicographic(coords) is Equal,
    decreases coords.len(),
{
    if coords.len() > 0 {
        let rest = coords.drop_first();
        lemma_first_untied_decides(rest);
        assert forall|i: int|
            0 <= i < coords.len() && (forall|j: int| 0 <= j < i ==> #[trigger] coords[j] is Tied)
                implies ((#[trigger] coords[i] is Less ==> spec_lexicographic(coords) is Less) && (
                coords[i] is Greater ==> spec_lexicographic(coords) is Greater)) by {
            if i > 0 {
                assert(coords[0] is Tied);
                assert(rest[i - 1] == coords[i]);
                assert forall|j: int| 0 <= j < i - 1 implies #[trigger] rest[j] is Tied by {
                    assert(rest[j] == coords[j + 1]);
                }
            }
        }
        if forall|j: int| 0 <= j < coords.len() ==> #[trigger] coords[j] is Tied {
            assert(coords[0] is Tied);
            assert forall|j: int| 0 <= j < rest.len() implies #[trigger] rest[j] is Tied by {
                assert(rest[j] == coords[j + 1]);
            }
        }
    }
}

} // verus!
